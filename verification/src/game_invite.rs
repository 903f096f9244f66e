//! Invites to games: listing them and answering one's own.

use vstd::prelude::*;
use crate::api::BodyView;
use crate::api::db_err_to_response;
use crate::api::failure_reply;
use crate::api::Reply;
use crate::api::ReplyView;
use crate::api::Status;
use crate::api::StoreFailure;
use crate::game::InviteResponse;
use crate::game::InviteResponseFromUser;
use crate::roles::AuthContext;

verus! {

/// An invite as the store holds it. No two invites have the same user and
/// the same game.
#[derive(Debug, Clone, PartialEq, Eq)]
pub struct GameInvite {
    pub id: String,
    pub user_id: String,
    pub game_id: String,
    pub response: InviteResponse,
}

/// The answer of a user to an invite.
#[derive(Debug, Clone, PartialEq, Eq)]
pub struct AnswerInviteToGame {
    pub invite_id: String,
    pub response: InviteResponseFromUser,
}

/// The update that records an answer: it reaches the invite with the id
/// `invite_id` if that invite is `user_id`'s, and no other.
#[derive(Debug, Clone, PartialEq, Eq)]
pub struct InviteUpdate {
    pub invite_id: String,
    pub user_id: String,
    pub response: InviteResponse,
}

impl InviteUpdate {
    /// Whether the update reaches `invite`: the invite has the id, and it is
    /// the user's.
    pub open spec fn spec_reaches(self, invite: GameInvite) -> bool {
        invite.id@ == self.invite_id@ && invite.user_id@ == self.user_id@
    }

    /// Whether the update reaches `invite`.
    pub fn reaches(&self, invite: &GameInvite) -> (reached: bool)
        ensures
            reached == self.spec_reaches(*invite),
    {
        invite.id == self.invite_id && invite.user_id == self.user_id
    }
}

impl GameInvite {
    /// The invite after `update`: the response changes where the update
    /// reaches this invite, and nothing changes where it does not.
    pub open spec fn spec_taken(self, update: InviteUpdate) -> GameInvite {
        if update.spec_reaches(self) {
            GameInvite { response: update.response, ..self }
        } else {
            self
        }
    }

    /// Takes `update`, and tells whether it reached this invite.
    pub fn take(&mut self, update: &InviteUpdate) -> (reached: bool)
        ensures
            reached == update.spec_reaches(*old(self)),
            *final(self) == old(self).spec_taken(*update),
    {
        if update.reaches(self) {
            self.response = update.response;
            true
        } else {
            false
        }
    }
}

/// Whether `update` records the answer `payload` of the caller `auth_ctx`:
/// it names the invite of the answer, the caller as the invite's owner, and
/// the response that the answer stands for.
pub open spec fn records_answer(
    update: InviteUpdate,
    auth_ctx: AuthContext,
    payload: AnswerInviteToGame,
) -> bool {
    &&& update.invite_id@ == payload.invite_id@
    &&& update.user_id@ == auth_ctx.user_id@
    &&& update.response == payload.response.spec_recorded()
}

/// The update that records the caller's answer. It carries the caller's own
/// id, so that it can reach none but the caller's invites, and its response
/// is never `Pending`.
pub fn answer_invite_to_game(auth_ctx: &AuthContext, payload: AnswerInviteToGame) -> (update:
    InviteUpdate)
    ensures
        records_answer(update, *auth_ctx, payload),
        update.response != InviteResponse::Pending,
{
    InviteUpdate {
        invite_id: payload.invite_id,
        user_id: auth_ctx.user_id.clone(),
        response: payload.response.recorded(),
    }
}

/// The reply to an answer, given how the update went: `200` where the store
/// took it, whether or not it reached an invite.
pub open spec fn answer_reply(outcome: Result<(), StoreFailure>) -> ReplyView {
    match outcome {
        Ok(()) => ReplyView { status: Status::Success, set_cookie: None, body: BodyView::Empty },
        Err(failure) => failure_reply(failure),
    }
}

/// The reply to an answer, given how the update went.
pub fn answer_invite_reply(outcome: Result<(), StoreFailure>) -> (reply: Reply)
    ensures
        reply@ == answer_reply(outcome),
{
    match outcome {
        Ok(()) => Reply::empty(Status::Success),
        Err(failure) => db_err_to_response(failure),
    }
}

/// An answer to an invite of another user changes nothing: whatever the
/// invite's id, the update that records the caller's answer leaves an invite
/// that is not the caller's as it is.
pub proof fn law_foreign_invite_is_untouched(
    auth_ctx: AuthContext,
    payload: AnswerInviteToGame,
    update: InviteUpdate,
    invite: GameInvite,
)
    requires
        records_answer(update, auth_ctx, payload),
        invite.user_id@ != auth_ctx.user_id@,
    ensures
        invite.spec_taken(update) == invite,
{
}

/// An answer changes the caller's invite with the id it names to the
/// response given, which is never `Pending`, and changes nothing else of it.
pub proof fn law_own_invite_is_answered(
    auth_ctx: AuthContext,
    payload: AnswerInviteToGame,
    update: InviteUpdate,
    invite: GameInvite,
)
    requires
        records_answer(update, auth_ctx, payload),
        invite.user_id@ == auth_ctx.user_id@,
        invite.id@ == payload.invite_id@,
    ensures
        invite.spec_taken(update) == (GameInvite {
            response: payload.response.spec_recorded(),
            ..invite
        }),
        invite.spec_taken(update).response != InviteResponse::Pending,
{
}

/// Whose invites are listed.
#[derive(Debug, Clone, PartialEq, Eq)]
pub struct OwnInvitesQuery {
    pub user_id: String,
}

/// The invites to list for the caller: the caller's own.
pub fn list_own_game_invites(auth_ctx: &AuthContext) -> (query: OwnInvitesQuery)
    ensures
        query.user_id@ == auth_ctx.user_id@,
{
    OwnInvitesQuery { user_id: auth_ctx.user_id.clone() }
}

/// The game whose invites are listed, and the organization that must have
/// it.
#[derive(Debug, Clone, PartialEq, Eq)]
pub struct GameInvitesQuery {
    pub game_id: String,
    pub org_id: String,
}

/// The invites to list for a game: those of the game, provided that a team
/// of the caller's organization has it.
pub fn list_invites_to_game(auth_ctx: &AuthContext, game_id: String) -> (query: GameInvitesQuery)
    ensures
        query.game_id@ == game_id@,
        query.org_id@ == auth_ctx.org_id@,
{
    GameInvitesQuery { game_id, org_id: auth_ctx.org_id.clone() }
}

/// How a listing is answered, given how the read went: the rows are sent
/// with `200`, a failure is answered without them.
pub fn listing_reply(outcome: Result<(), StoreFailure>) -> (answer: Result<Status, Reply>)
    ensures
        outcome is Ok ==> answer == Ok::<Status, Reply>(Status::Success),
        outcome matches Err(failure) ==> (answer matches Err(reply) && reply@ == failure_reply(
            failure,
        )),
{
    match outcome {
        Ok(()) => Ok(Status::Success),
        Err(failure) => Err(db_err_to_response(failure)),
    }
}

} // verus!
