//! Teams of an organization.
//!
//! Every read and write of a team is bound to the caller's organization, so
//! that a team of another organization looks like one that does not exist.

use vstd::prelude::*;
use crate::api::BodyView;
use crate::api::db_err_to_response;
use crate::api::failure_reply;
use crate::api::Reply;
use crate::api::ReplyView;
use crate::api::Status;
use crate::api::StoreFailure;
use crate::game::JustId;
use crate::roles::AuthContext;
use crate::roles::forbidden_reply;
use crate::roles::guard;
use crate::roles::Role;
use crate::roles::roles_intersect;

verus! {

/// A team as the handlers hand it out.
#[derive(Debug, Clone, PartialEq, Eq)]
pub struct Team {
    pub id: String,
    pub org_id: String,
    pub name: String,
    pub slug: String,
}

/// The request to create a team.
#[derive(Debug, Clone, PartialEq, Eq)]
pub struct CreateTeamPayload {
    pub name: String,
    pub slug: String,
}

/// The request to change a team: what is `None` stays as it is.
#[derive(Debug, Clone, PartialEq, Eq)]
pub struct UpdateTeamPayload {
    pub name: Option<String>,
    pub slug: Option<String>,
}

/// The view of an optional string.
pub open spec fn optional_text(text: Option<String>) -> Option<Seq<char>> {
    match text {
        Some(text) => Some(text@),
        None => None,
    }
}

/// Those who create and change teams.
pub open spec fn team_makers() -> Seq<Role> {
    seq![Role::SuperAdmin, Role::OrgAdmin]
}

/// Those who delete teams.
pub open spec fn team_removers() -> Seq<Role> {
    seq![Role::OrgAdmin, Role::SuperAdmin]
}

/// The whitelist of those who create and change teams.
pub fn team_makers_whitelist() -> (whitelist: Vec<Role>)
    ensures
        whitelist@ == team_makers(),
{
    let whitelist = vec![Role::SuperAdmin, Role::OrgAdmin];
    assert(whitelist@ =~= team_makers());
    whitelist
}

/// The whitelist of those who delete teams.
pub fn team_removers_whitelist() -> (whitelist: Vec<Role>)
    ensures
        whitelist@ == team_removers(),
{
    let whitelist = vec![Role::OrgAdmin, Role::SuperAdmin];
    assert(whitelist@ =~= team_removers());
    whitelist
}

/// A lower-case hexadecimal digit.
pub open spec fn is_hex_digit(c: char) -> bool {
    ('0' <= c && c <= '9') || ('a' <= c && c <= 'f')
}

/// A UUID in its hyphenated form: 36 characters, hyphens after the 8th, the
/// 12th, the 16th and the 20th digit, lower-case hexadecimal digits
/// elsewhere.
pub open spec fn is_uuid_text(text: Seq<char>) -> bool {
    &&& text.len() == 36
    &&& forall|i: int|
        0 <= i < 36 ==> if i == 8 || i == 13 || i == 18 || i == 23 {
            #[trigger] text[i] == '-'
        } else {
            is_hex_digit(text[i])
        }
}

/// `Uuid::new_v4` of `uuid` in its `Display` form: a random UUID, written
/// hyphenated in lower case. Which one is left open.
#[verifier::external_body]
fn random_uuid() -> (id: String)
    ensures
        is_uuid_text(id@),
{
    uuid::Uuid::new_v4().to_string()
}

/// A fresh id for a team.
pub fn new_team_id() -> (id: String)
    ensures
        is_uuid_text(id@),
{
    random_uuid()
}

/// The team to write for `payload` under `id`: the caller must be allowed to
/// make teams, and the team belongs to the caller's organization.
pub fn create_team_with(auth_ctx: &AuthContext, payload: CreateTeamPayload, id: String) -> (asked:
    Result<Team, Reply>)
    ensures
        asked is Ok <==> roles_intersect(auth_ctx.roles@, team_makers()),
        asked matches Ok(team) ==> team.id@ == id@ && team.org_id@ == auth_ctx.org_id@
            && team.name@ == payload.name@ && team.slug@ == payload.slug@,
        asked matches Err(reply) ==> reply@ == forbidden_reply(team_makers()),
{
    let whitelist = team_makers_whitelist();
    match guard(auth_ctx, whitelist.as_slice()) {
        Ok(()) => Ok(
            Team { id, org_id: auth_ctx.org_id.clone(), name: payload.name, slug: payload.slug },
        ),
        Err(reply) => Err(reply),
    }
}

/// The team to write for `payload`, under an id drawn afresh.
pub fn create_team(auth_ctx: &AuthContext, payload: CreateTeamPayload) -> (asked: Result<
    Team,
    Reply,
>)
    ensures
        asked is Ok <==> roles_intersect(auth_ctx.roles@, team_makers()),
        asked matches Ok(team) ==> is_uuid_text(team.id@) && team.org_id@ == auth_ctx.org_id@
            && team.name@ == payload.name@ && team.slug@ == payload.slug@,
        asked matches Err(reply) ==> reply@ == forbidden_reply(team_makers()),
{
    create_team_with(auth_ctx, payload, new_team_id())
}

/// The reply to the creation of a team, given how the insert went.
pub open spec fn team_created_reply(outcome: Result<JustId, StoreFailure>) -> ReplyView {
    match outcome {
        Ok(row) => ReplyView {
            status: Status::Created,
            set_cookie: None,
            body: BodyView::Json(row.id@),
        },
        Err(failure) => failure_reply(failure),
    }
}

/// The reply to the creation of a team, given how the insert went.
pub fn create_team_reply(outcome: Result<JustId, StoreFailure>) -> (reply: Reply)
    ensures
        reply@ == team_created_reply(outcome),
{
    match outcome {
        Ok(row) => Reply::json(Status::Created, row.id.as_str()),
        Err(failure) => db_err_to_response(failure),
    }
}

/// The organization whose teams are listed for the caller: its own.
pub fn list_teams(auth_ctx: &AuthContext) -> (org_id: String)
    ensures
        org_id@ == auth_ctx.org_id@,
{
    auth_ctx.org_id.clone()
}

/// A team named by its id and the organization that must have it.
#[derive(Debug, Clone, PartialEq, Eq)]
pub struct TeamKey {
    pub team_id: String,
    pub org_id: String,
}

/// The team to read for the caller: the one with the id, in the caller's
/// organization.
pub fn get_team(auth_ctx: &AuthContext, team_id: String) -> (key: TeamKey)
    ensures
        key.team_id@ == team_id@,
        key.org_id@ == auth_ctx.org_id@,
{
    TeamKey { team_id, org_id: auth_ctx.org_id.clone() }
}

/// How the read of teams is answered, given how it went: the rows are sent
/// with `200`; a team that the organization does not have is answered with
/// `404`.
pub fn team_rows_reply(outcome: Result<(), StoreFailure>) -> (answer: Result<Status, Reply>)
    ensures
        outcome is Ok ==> answer == Ok::<Status, Reply>(Status::Success),
        outcome matches Err(failure) ==> (answer matches Err(reply) && reply@ == failure_reply(
            failure,
        )),
{
    match outcome {
        Ok(()) => Ok(Status::Success),
        Err(failure) => Err(db_err_to_response(failure)),
    }
}

/// The change of a team: the team named by `key` gets the name and the slug
/// that are given, and keeps what is not.
#[derive(Debug, Clone, PartialEq, Eq)]
pub struct TeamChange {
    pub key: TeamKey,
    pub name: Option<String>,
    pub slug: Option<String>,
}

/// The change to make for `payload`: the caller must be allowed to make
/// teams, and the change reaches the team only within the caller's
/// organization.
pub fn update_team(auth_ctx: &AuthContext, team_id: String, payload: UpdateTeamPayload) -> (asked:
    Result<TeamChange, Reply>)
    ensures
        asked is Ok <==> roles_intersect(auth_ctx.roles@, team_makers()),
        asked matches Ok(change) ==> change.key.team_id@ == team_id@ && change.key.org_id@
            == auth_ctx.org_id@ && optional_text(change.name) == optional_text(payload.name)
            && optional_text(change.slug) == optional_text(payload.slug),
        asked matches Err(reply) ==> reply@ == forbidden_reply(team_makers()),
{
    let whitelist = team_makers_whitelist();
    match guard(auth_ctx, whitelist.as_slice()) {
        Ok(()) => Ok(
            TeamChange {
                key: TeamKey { team_id, org_id: auth_ctx.org_id.clone() },
                name: payload.name,
                slug: payload.slug,
            },
        ),
        Err(reply) => Err(reply),
    }
}

/// The team to delete for the caller: the caller must be allowed to delete
/// teams, and the delete reaches the team only within the caller's
/// organization.
pub fn delete_team(auth_ctx: &AuthContext, team_id: String) -> (asked: Result<TeamKey, Reply>)
    ensures
        asked is Ok <==> roles_intersect(auth_ctx.roles@, team_removers()),
        asked matches Ok(key) ==> key.team_id@ == team_id@ && key.org_id@ == auth_ctx.org_id@,
        asked matches Err(reply) ==> reply@ == forbidden_reply(team_removers()),
{
    let whitelist = team_removers_whitelist();
    match guard(auth_ctx, whitelist.as_slice()) {
        Ok(()) => Ok(TeamKey { team_id, org_id: auth_ctx.org_id.clone() }),
        Err(reply) => Err(reply),
    }
}

/// The reply to a delete that is answered with `204` whether or not it
/// removed a row.
pub open spec fn removed_reply(outcome: Result<(), StoreFailure>) -> ReplyView {
    match outcome {
        Ok(()) => ReplyView { status: Status::NoContent, set_cookie: None, body: BodyView::Empty },
        Err(failure) => failure_reply(failure),
    }
}

/// The reply to the deletion of a team, given how the delete went.
pub fn delete_team_reply(outcome: Result<(), StoreFailure>) -> (reply: Reply)
    ensures
        reply@ == removed_reply(outcome),
{
    match outcome {
        Ok(()) => Reply::empty(Status::NoContent),
        Err(failure) => db_err_to_response(failure),
    }
}

} // verus!
