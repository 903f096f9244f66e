//! Games and the writer that creates one together with its invites.
//!
//! Creating a game writes a schedule event, the game that refers to it, and
//! one pending invite for every user of the organization who holds one of
//! the invited roles. All of it happens in one transaction: whatever fails,
//! the exchange ends with `Abort`, and `Commit` is asked for only after the
//! invites were written.

use vstd::prelude::*;
use crate::api::BodyView;
use crate::api::db_err_to_response;
use crate::api::failure_reply;
use crate::api::Reply;
use crate::api::ReplyView;
use crate::api::Status;
use crate::api::StoreFailure;
use crate::api::unexpected;
use crate::api::unexpected_reply;
use crate::ids::lemma_ascending_is_duplicate_free;
use crate::ids::sorted_unique;
use crate::ids::strictly_ascending;
use crate::ids::texts;
use crate::roles::AuthContext;
use crate::roles::forbidden_reply;
use crate::roles::game_staff;
use crate::roles::game_staff_whitelist;
use crate::roles::guard;
use crate::roles::Role;
use crate::roles::roles_intersect;

verus! {

/// Where a game is played, seen from the team.
#[derive(Debug, Clone, Copy, PartialEq, Eq, Hash, Structural)]
pub enum LocationKind {
    Home,
    Away,
    Other,
}

/// What an invited user has answered so far.
#[derive(Debug, Clone, Copy, PartialEq, Eq, Hash, Structural)]
pub enum InviteResponse {
    Pending,
    Accepted,
    Declined,
    Unsure,
}

/// The answers that a user can give: an invite never goes back to pending.
#[derive(Debug, Clone, Copy, PartialEq, Eq, Hash, Structural)]
pub enum InviteResponseFromUser {
    Accepted,
    Declined,
    Unsure,
}

impl InviteResponseFromUser {
    /// The response that the invite holds after this answer.
    pub open spec fn spec_recorded(self) -> InviteResponse {
        match self {
            InviteResponseFromUser::Accepted => InviteResponse::Accepted,
            InviteResponseFromUser::Declined => InviteResponse::Declined,
            InviteResponseFromUser::Unsure => InviteResponse::Unsure,
        }
    }

    /// The response that the invite holds after this answer. It is never
    /// `Pending`.
    pub fn recorded(self) -> (response: InviteResponse)
        ensures
            response == self.spec_recorded(),
            response != InviteResponse::Pending,
    {
        match self {
            InviteResponseFromUser::Accepted => InviteResponse::Accepted,
            InviteResponseFromUser::Declined => InviteResponse::Declined,
            InviteResponseFromUser::Unsure => InviteResponse::Unsure,
        }
    }
}

/// A row that holds nothing but an identifier.
#[derive(Debug, Clone, PartialEq, Eq)]
pub struct JustId {
    pub id: String,
}

/// The identifiers of a sequence of rows.
pub open spec fn row_ids(rows: Seq<JustId>) -> Seq<Seq<char>> {
    Seq::new(rows.len(), |i: int| rows[i].id@)
}

/// The request to create a game. The times are microseconds since the Unix
/// epoch.
#[derive(Debug, Clone, PartialEq, Eq)]
pub struct CreateGamePayload {
    pub team_id: String,
    pub opponent: String,
    pub start_time: i64,
    pub stop_time: Option<i64>,
    pub location: String,
    pub location_kind: LocationKind,
    pub invited_roles: Vec<Role>,
}

/// The mathematical value of a [`CreateGamePayload`].
pub struct CreateGamePayloadView {
    pub team_id: Seq<char>,
    pub opponent: Seq<char>,
    pub start_time: i64,
    pub stop_time: Option<i64>,
    pub location: Seq<char>,
    pub location_kind: LocationKind,
    pub invited_roles: Seq<Role>,
}

impl View for CreateGamePayload {
    type V = CreateGamePayloadView;

    open spec fn view(&self) -> CreateGamePayloadView {
        CreateGamePayloadView {
            team_id: self.team_id@,
            opponent: self.opponent@,
            start_time: self.start_time,
            stop_time: self.stop_time,
            location: self.location@,
            location_kind: self.location_kind,
            invited_roles: self.invited_roles@,
        }
    }
}

/// The game row to write.
#[derive(Debug, Clone, PartialEq, Eq)]
pub struct NewGame {
    pub opponent: String,
    pub location: String,
    pub location_kind: LocationKind,
    pub event_id: String,
    pub invited_roles: Vec<Role>,
    pub team_id: String,
}

/// The mathematical value of a [`NewGame`].
pub struct NewGameView {
    pub opponent: Seq<char>,
    pub location: Seq<char>,
    pub location_kind: LocationKind,
    pub event_id: Seq<char>,
    pub invited_roles: Seq<Role>,
    pub team_id: Seq<char>,
}

impl View for NewGame {
    type V = NewGameView;

    open spec fn view(&self) -> NewGameView {
        NewGameView {
            opponent: self.opponent@,
            location: self.location@,
            location_kind: self.location_kind,
            event_id: self.event_id@,
            invited_roles: self.invited_roles@,
            team_id: self.team_id@,
        }
    }
}

/// The game row that `payload` asks for, once its event has the id
/// `event_id`.
pub open spec fn game_row(payload: CreateGamePayloadView, event_id: Seq<char>) -> NewGameView {
    NewGameView {
        opponent: payload.opponent,
        location: payload.location,
        location_kind: payload.location_kind,
        event_id,
        invited_roles: payload.invited_roles,
        team_id: payload.team_id,
    }
}

/// The invites of one game, column by column, as one statement writes them.
#[derive(Debug, Clone, PartialEq, Eq)]
pub struct InviteBatch {
    pub user_ids: Vec<String>,
    pub game_ids: Vec<String>,
    pub statuses: Vec<InviteResponse>,
}

/// Whether `batch` invites exactly the users of `users` to `game_id`: every
/// one of them once, in ascending order of their ids, all pending.
pub open spec fn is_invite_batch(batch: InviteBatch, users: Seq<Seq<char>>, game_id: Seq<char>) -> bool {
    &&& strictly_ascending(texts(batch.user_ids@))
    &&& forall|t: Seq<char>| texts(batch.user_ids@).contains(t) <==> users.contains(t)
    &&& batch.game_ids@.len() == batch.user_ids@.len()
    &&& batch.statuses@.len() == batch.user_ids@.len()
    &&& forall|i: int| 0 <= i < batch.game_ids@.len() ==> (#[trigger] batch.game_ids@[i])@ == game_id
    &&& forall|i: int|
        0 <= i < batch.statuses@.len() ==> #[trigger] batch.statuses@[i] == InviteResponse::Pending
}

/// Builds the invites to `game_id` for the users that the store resolved. A
/// user whom it resolved more than once, for holding several of the invited
/// roles, is invited once.
pub fn invite_batch(users: &Vec<JustId>, game_id: &str) -> (batch: InviteBatch)
    ensures
        is_invite_batch(batch, row_ids(users@), game_id@),
        texts(batch.user_ids@).no_duplicates(),
        batch.user_ids@.len() <= users@.len(),
{
    let mut ids: Vec<String> = Vec::new();
    let mut i: usize = 0;
    while i < users.len()
        invariant
            i <= users.len(),
            texts(ids@) == row_ids(users@.take(i as int)),
        decreases users.len() - i,
    {
        let ghost before = ids@;
        ids.push(users[i].id.clone());
        proof {
            let now = texts(ids@);
            let want = row_ids(users@.take(i + 1));
            assert(texts(before).len() == before.len());
            assert(row_ids(users@.take(i as int)).len() == i);
            assert(users@.take(i + 1).len() == i + 1);
            assert(now.len() == i + 1);
            assert(want.len() == i + 1);
            assert forall|j: int| 0 <= j < now.len() implies now[j] == want[j] by {
                if j < i {
                    assert(texts(before)[j] == row_ids(users@.take(i as int))[j]);
                }
            }
            assert(now =~= want);
        }
        i += 1;
    }
    proof {
        assert(users@.take(users@.len() as int) == users@);
    }
    let user_ids = sorted_unique(&ids);
    let mut game_ids: Vec<String> = Vec::new();
    let mut statuses: Vec<InviteResponse> = Vec::new();
    let mut k: usize = 0;
    while k < user_ids.len()
        invariant
            k <= user_ids.len(),
            game_ids@.len() == k,
            statuses@.len() == k,
            forall|j: int| 0 <= j < k ==> (#[trigger] game_ids@[j])@ == game_id@,
            forall|j: int| 0 <= j < k ==> #[trigger] statuses@[j] == InviteResponse::Pending,
        decreases user_ids.len() - k,
    {
        game_ids.push(game_id.to_owned());
        statuses.push(InviteResponse::Pending);
        k += 1;
    }
    InviteBatch { user_ids, game_ids, statuses }
}


/// Where the creation of a game stands.
#[derive(Debug, Clone, PartialEq, Eq)]
pub enum CreateGame {
    /// Nothing was received yet.
    Idle,
    /// The transaction is being opened.
    Opening { org_id: String, payload: CreateGamePayload },
    /// The team is being looked up within the caller's organization.
    CheckingTeam { org_id: String, payload: CreateGamePayload },
    /// The schedule event is being written.
    InsertingEvent { org_id: String, payload: CreateGamePayload },
    /// The game is being written.
    InsertingGame { org_id: String, invited_roles: Vec<Role> },
    /// The users to invite are being resolved.
    ResolvingUsers { game_id: String },
    /// The invites are being written.
    InsertingInvites { game_id: String },
    /// The transaction is being committed.
    Committing { game_id: String },
    /// The reply was decided.
    Done,
}

/// What the creation of a game is told.
#[derive(Debug, Clone, PartialEq, Eq)]
pub enum CreateGameEvent {
    /// The request arrived, with the identity of its sender.
    Received { auth_ctx: AuthContext, payload: CreateGamePayload },
    /// The transaction is open.
    Begun,
    /// The team belongs to the caller's organization.
    TeamFound,
    /// The schedule event was written and has this id.
    EventInserted(JustId),
    /// The game was written and has this id.
    GameInserted(JustId),
    /// The users who hold an invited role, ordered by their names; one who
    /// holds several of the roles is listed once for each.
    UsersResolved(Vec<JustId>),
    /// The invites were written.
    InvitesInserted,
    /// The transaction was committed.
    Committed,
    /// The store call failed.
    Failed(StoreFailure),
}

/// What the creation of a game asks of its caller.
#[derive(Debug, Clone, PartialEq, Eq)]
pub enum CreateGameAction {
    /// Open a transaction.
    Begin,
    /// Look up the team with this id in this organization.
    CheckTeam { team_id: String, org_id: String },
    /// Write a schedule event with these times.
    InsertEvent { start_time: i64, stop_time: Option<i64> },
    /// Write this game.
    InsertGame(NewGame),
    /// Resolve the users of this organization who hold one of these roles,
    /// ordered by their names.
    ResolveUsers { org_id: String, invited_roles: Vec<Role> },
    /// Write these invites with one statement.
    InsertInvites(InviteBatch),
    /// Commit the transaction.
    Commit,
    /// Send the reply; the transaction was committed.
    Finish(Reply),
    /// Roll back what the transaction holds, then send the reply.
    Abort(Reply),
}

/// The reply to a game that was created: its id.
pub open spec fn game_created_reply(game_id: Seq<char>) -> ReplyView {
    ReplyView { status: Status::Created, set_cookie: None, body: BodyView::Json(game_id) }
}

/// Whether the exchange ends at `post` by rolling back and sending `reply`.
pub open spec fn create_game_aborts(post: CreateGame, action: CreateGameAction, reply: ReplyView) -> bool {
    &&& post is Done
    &&& action matches CreateGameAction::Abort(sent)
    &&& sent@ == reply
}

/// The step that the creation of a game takes from `pre` on `event`: whether
/// it leads to `post` and asks for `action`.
pub open spec fn create_game_step(
    pre: CreateGame,
    event: CreateGameEvent,
    post: CreateGame,
    action: CreateGameAction,
) -> bool {
    match (pre, event) {
        (CreateGame::Idle, CreateGameEvent::Received { auth_ctx, payload }) => {
            if roles_intersect(auth_ctx.roles@, game_staff()) {
                &&& action is Begin
                &&& post matches CreateGame::Opening { org_id, payload: kept }
                &&& org_id@ == auth_ctx.org_id@
                &&& kept@ == payload@
            } else {
                create_game_aborts(post, action, forbidden_reply(game_staff()))
            }
        },
        (CreateGame::Opening { org_id, payload }, CreateGameEvent::Begun) => {
            &&& post matches CreateGame::CheckingTeam { org_id: org, payload: kept }
            &&& org@ == org_id@
            &&& kept@ == payload@
            &&& action matches CreateGameAction::CheckTeam { team_id, org_id: asked }
            &&& team_id@ == payload.team_id@
            &&& asked@ == org_id@
        },
        (CreateGame::CheckingTeam { org_id, payload }, CreateGameEvent::TeamFound) => {
            &&& post matches CreateGame::InsertingEvent { org_id: org, payload: kept }
            &&& org@ == org_id@
            &&& kept@ == payload@
            &&& action matches CreateGameAction::InsertEvent { start_time, stop_time }
            &&& start_time == payload.start_time
            &&& stop_time == payload.stop_time
        },
        (CreateGame::InsertingEvent { org_id, payload }, CreateGameEvent::EventInserted(row)) => {
            &&& post matches CreateGame::InsertingGame { org_id: org, invited_roles }
            &&& org@ == org_id@
            &&& invited_roles@ == payload.invited_roles@
            &&& action matches CreateGameAction::InsertGame(game)
            &&& game@ == game_row(payload@, row.id@)
        },
        (
            CreateGame::InsertingGame { org_id, invited_roles },
            CreateGameEvent::GameInserted(row),
        ) => {
            &&& post matches CreateGame::ResolvingUsers { game_id }
            &&& game_id@ == row.id@
            &&& action matches CreateGameAction::ResolveUsers { org_id: org, invited_roles: roles }
            &&& org@ == org_id@
            &&& roles@ == invited_roles@
        },
        (CreateGame::ResolvingUsers { game_id }, CreateGameEvent::UsersResolved(users)) => {
            &&& post matches CreateGame::InsertingInvites { game_id: kept }
            &&& kept@ == game_id@
            &&& action matches CreateGameAction::InsertInvites(batch)
            &&& is_invite_batch(batch, row_ids(users@), game_id@)
        },
        (CreateGame::InsertingInvites { game_id }, CreateGameEvent::InvitesInserted) => {
            &&& post matches CreateGame::Committing { game_id: kept }
            &&& kept@ == game_id@
            &&& action is Commit
        },
        (CreateGame::Committing { game_id }, CreateGameEvent::Committed) => {
            &&& post is Done
            &&& action matches CreateGameAction::Finish(reply)
            &&& reply@ == game_created_reply(game_id@)
        },
        (CreateGame::Idle, CreateGameEvent::Failed(_)) => create_game_aborts(
            post,
            action,
            unexpected_reply(),
        ),
        (CreateGame::Done, CreateGameEvent::Failed(_)) => create_game_aborts(
            post,
            action,
            unexpected_reply(),
        ),
        (_, CreateGameEvent::Failed(failure)) => create_game_aborts(
            post,
            action,
            failure_reply(failure),
        ),
        _ => create_game_aborts(post, action, unexpected_reply()),
    }
}

/// Copies a list of roles.
pub fn copy_roles(roles: &Vec<Role>) -> (copy: Vec<Role>)
    ensures
        copy@ == roles@,
{
    let mut copy: Vec<Role> = Vec::new();
    let mut i: usize = 0;
    while i < roles.len()
        invariant
            i <= roles.len(),
            copy@ == roles@.take(i as int),
        decreases roles.len() - i,
    {
        copy.push(roles[i]);
        proof {
            assert(copy@ =~= roles@.take(i + 1));
        }
        i += 1;
    }
    proof {
        assert(roles@.take(roles@.len() as int) == roles@);
    }
    copy
}

/// One step of the creation of a game.
///
/// The caller must hold one of the roles that manage games, else the exchange
/// ends with `403` before anything is read. A team that is not of the
/// caller's organization ends it with `404`, as a team that does not exist
/// does. A failure at any step ends it with `Abort`, so that nothing of a
/// half-written game stays; `Commit` is asked for only once the invites were
/// written, and `Finish` only once the commit went through.
pub fn create_game(state: CreateGame, event: CreateGameEvent) -> (step: (
    CreateGame,
    CreateGameAction,
))
    ensures
        create_game_step(state, event, step.0, step.1),
        step.1 is Commit <==> state is InsertingInvites && event is InvitesInserted,
        step.1 is Finish <==> state is Committing && event is Committed,
        event is Failed ==> step.1 is Abort,
{
    match (state, event) {
        (CreateGame::Idle, CreateGameEvent::Received { auth_ctx, payload }) => {
            let whitelist = game_staff_whitelist();
            match guard(&auth_ctx, whitelist.as_slice()) {
                Ok(()) => (
                    CreateGame::Opening { org_id: auth_ctx.org_id, payload },
                    CreateGameAction::Begin,
                ),
                Err(reply) => (CreateGame::Done, CreateGameAction::Abort(reply)),
            }
        },
        (CreateGame::Opening { org_id, payload }, CreateGameEvent::Begun) => {
            let action = CreateGameAction::CheckTeam {
                team_id: payload.team_id.clone(),
                org_id: org_id.clone(),
            };
            (CreateGame::CheckingTeam { org_id, payload }, action)
        },
        (CreateGame::CheckingTeam { org_id, payload }, CreateGameEvent::TeamFound) => {
            let action = CreateGameAction::InsertEvent {
                start_time: payload.start_time,
                stop_time: payload.stop_time,
            };
            (CreateGame::InsertingEvent { org_id, payload }, action)
        },
        (CreateGame::InsertingEvent { org_id, payload }, CreateGameEvent::EventInserted(row)) => {
            let invited_roles = copy_roles(&payload.invited_roles);
            let game = NewGame {
                opponent: payload.opponent,
                location: payload.location,
                location_kind: payload.location_kind,
                event_id: row.id,
                invited_roles: payload.invited_roles,
                team_id: payload.team_id,
            };
            (
                CreateGame::InsertingGame { org_id, invited_roles },
                CreateGameAction::InsertGame(game),
            )
        },
        (
            CreateGame::InsertingGame { org_id, invited_roles },
            CreateGameEvent::GameInserted(row),
        ) => (
            CreateGame::ResolvingUsers { game_id: row.id },
            CreateGameAction::ResolveUsers { org_id, invited_roles },
        ),
        (CreateGame::ResolvingUsers { game_id }, CreateGameEvent::UsersResolved(users)) => {
            let batch = invite_batch(&users, game_id.as_str());
            (CreateGame::InsertingInvites { game_id }, CreateGameAction::InsertInvites(batch))
        },
        (CreateGame::InsertingInvites { game_id }, CreateGameEvent::InvitesInserted) => (
            CreateGame::Committing { game_id },
            CreateGameAction::Commit,
        ),
        (CreateGame::Committing { game_id }, CreateGameEvent::Committed) => (
            CreateGame::Done,
            CreateGameAction::Finish(Reply::json(Status::Created, game_id.as_str())),
        ),
        (CreateGame::Idle, CreateGameEvent::Failed(_)) => (
            CreateGame::Done,
            CreateGameAction::Abort(unexpected()),
        ),
        (CreateGame::Done, CreateGameEvent::Failed(_)) => (
            CreateGame::Done,
            CreateGameAction::Abort(unexpected()),
        ),
        (_, CreateGameEvent::Failed(failure)) => (
            CreateGame::Done,
            CreateGameAction::Abort(db_err_to_response(failure)),
        ),
        _ => (CreateGame::Done, CreateGameAction::Abort(unexpected())),
    }
}

/// Where the deletion of a game stands.
#[derive(Debug, Clone, PartialEq, Eq)]
pub enum DeleteGame {
    /// Nothing was received yet.
    Idle,
    /// The game is being looked up within the caller's organization.
    FindingGame { game_id: String },
    /// The game is being deleted.
    Deleting,
    /// The reply was decided.
    Done,
}

/// What the deletion of a game is told.
#[derive(Debug, Clone, PartialEq, Eq)]
pub enum DeleteGameEvent {
    /// The request arrived, with the identity of its sender.
    Received { auth_ctx: AuthContext, game_id: String },
    /// The lookup went through; `found` says whether a team of the caller's
    /// organization has the game.
    GameLookedUp { found: bool },
    /// The game was deleted, and its invites with it.
    Deleted,
    /// The store call failed.
    Failed(StoreFailure),
}

/// What the deletion of a game asks of its caller.
#[derive(Debug, Clone, PartialEq, Eq)]
pub enum DeleteGameAction {
    /// Look up this game among the teams of this organization.
    FindGame { game_id: String, org_id: String },
    /// Delete this game.
    Delete { game_id: String },
    /// Send the reply.
    Respond(Reply),
}

/// The reply to the deletion of a game that the caller's organization does
/// not have, whether or not another one has it.
pub open spec fn game_not_found_reply() -> ReplyView {
    ReplyView { status: Status::NotFound, set_cookie: None, body: BodyView::Text("Game not found"@) }
}

/// The reply to a deletion that went through.
pub open spec fn deleted_reply() -> ReplyView {
    ReplyView { status: Status::NoContent, set_cookie: None, body: BodyView::Empty }
}

/// Whether the deletion ends at `post` by sending `reply`.
pub open spec fn delete_game_responds(post: DeleteGame, action: DeleteGameAction, reply: ReplyView) -> bool {
    &&& post is Done
    &&& action matches DeleteGameAction::Respond(sent)
    &&& sent@ == reply
}

/// The step that the deletion of a game takes from `pre` on `event`: whether
/// it leads to `post` and asks for `action`.
pub open spec fn delete_game_step(
    pre: DeleteGame,
    event: DeleteGameEvent,
    post: DeleteGame,
    action: DeleteGameAction,
) -> bool {
    match (pre, event) {
        (DeleteGame::Idle, DeleteGameEvent::Received { auth_ctx, game_id }) => {
            if roles_intersect(auth_ctx.roles@, game_staff()) {
                &&& post matches DeleteGame::FindingGame { game_id: kept }
                &&& kept@ == game_id@
                &&& action matches DeleteGameAction::FindGame { game_id: sought, org_id }
                &&& sought@ == game_id@
                &&& org_id@ == auth_ctx.org_id@
            } else {
                delete_game_responds(post, action, forbidden_reply(game_staff()))
            }
        },
        (DeleteGame::FindingGame { game_id }, DeleteGameEvent::GameLookedUp { found }) => {
            if found {
                &&& post is Deleting
                &&& action matches DeleteGameAction::Delete { game_id: doomed }
                &&& doomed@ == game_id@
            } else {
                delete_game_responds(post, action, game_not_found_reply())
            }
        },
        (DeleteGame::Deleting, DeleteGameEvent::Deleted) => delete_game_responds(
            post,
            action,
            deleted_reply(),
        ),
        (DeleteGame::FindingGame { .. }, DeleteGameEvent::Failed(failure)) => delete_game_responds(
            post,
            action,
            failure_reply(failure),
        ),
        (DeleteGame::Deleting, DeleteGameEvent::Failed(failure)) => delete_game_responds(
            post,
            action,
            failure_reply(failure),
        ),
        _ => delete_game_responds(post, action, unexpected_reply()),
    }
}

/// One step of the deletion of a game.
///
/// The caller must hold one of the roles that manage games. A game that no
/// team of the caller's organization has is answered with `404`, and
/// nothing is deleted: `Delete` is asked for only after the lookup found the
/// game there.
pub fn delete_game(state: DeleteGame, event: DeleteGameEvent) -> (step: (
    DeleteGame,
    DeleteGameAction,
))
    ensures
        delete_game_step(state, event, step.0, step.1),
        step.1 is Delete <==> state is FindingGame && event == (DeleteGameEvent::GameLookedUp {
            found: true,
        }),
{
    match (state, event) {
        (DeleteGame::Idle, DeleteGameEvent::Received { auth_ctx, game_id }) => {
            let whitelist = game_staff_whitelist();
            match guard(&auth_ctx, whitelist.as_slice()) {
                Ok(()) => (
                    DeleteGame::FindingGame { game_id: game_id.clone() },
                    DeleteGameAction::FindGame { game_id, org_id: auth_ctx.org_id },
                ),
                Err(reply) => (DeleteGame::Done, DeleteGameAction::Respond(reply)),
            }
        },
        (DeleteGame::FindingGame { game_id }, DeleteGameEvent::GameLookedUp { found }) => {
            if found {
                (DeleteGame::Deleting, DeleteGameAction::Delete { game_id })
            } else {
                (
                    DeleteGame::Done,
                    DeleteGameAction::Respond(Reply::text(Status::NotFound, "Game not found")),
                )
            }
        },
        (DeleteGame::Deleting, DeleteGameEvent::Deleted) => (
            DeleteGame::Done,
            DeleteGameAction::Respond(Reply::empty(Status::NoContent)),
        ),
        (DeleteGame::FindingGame { .. }, DeleteGameEvent::Failed(failure)) => (
            DeleteGame::Done,
            DeleteGameAction::Respond(db_err_to_response(failure)),
        ),
        (DeleteGame::Deleting, DeleteGameEvent::Failed(failure)) => (
            DeleteGame::Done,
            DeleteGameAction::Respond(db_err_to_response(failure)),
        ),
        _ => (DeleteGame::Done, DeleteGameAction::Respond(unexpected())),
    }
}

/// Where the listing of a team's games stands.
#[derive(Debug, Clone, PartialEq, Eq)]
pub enum ListGames {
    /// Nothing was received yet.
    Idle,
    /// The team is being looked up within the caller's organization.
    FindingTeam { team_id: String },
    /// The games are being read.
    Listing,
    /// The reply was decided.
    Done,
}

/// What the listing of a team's games is told.
#[derive(Debug, Clone, PartialEq, Eq)]
pub enum ListGamesEvent {
    /// The request arrived, with the identity of its sender.
    Received { auth_ctx: AuthContext, team_id: String },
    /// The lookup went through; `found` says whether the caller's
    /// organization has the team.
    TeamLookedUp { found: bool },
    /// The games were read; the caller holds them.
    Listed,
    /// The store call failed.
    Failed(StoreFailure),
}

/// What the listing of a team's games asks of its caller.
#[derive(Debug, Clone, PartialEq, Eq)]
pub enum ListGamesAction {
    /// Look up this team in this organization.
    FindTeam { team_id: String, org_id: String },
    /// Read the games of this team, the latest start first.
    List { team_id: String },
    /// Send the games that were read, with this status.
    SendGames(Status),
    /// Send the reply.
    Respond(Reply),
}

/// The reply to a listing for a team that the caller's organization does not
/// have.
pub open spec fn team_not_found_reply() -> ReplyView {
    ReplyView { status: Status::NotFound, set_cookie: None, body: BodyView::Text("Team not found"@) }
}

/// Whether the listing ends at `post` by sending `reply`.
pub open spec fn list_games_responds(post: ListGames, action: ListGamesAction, reply: ReplyView) -> bool {
    &&& post is Done
    &&& action matches ListGamesAction::Respond(sent)
    &&& sent@ == reply
}

/// The step that the listing of a team's games takes from `pre` on `event`:
/// whether it leads to `post` and asks for `action`.
pub open spec fn list_games_step(
    pre: ListGames,
    event: ListGamesEvent,
    post: ListGames,
    action: ListGamesAction,
) -> bool {
    match (pre, event) {
        (ListGames::Idle, ListGamesEvent::Received { auth_ctx, team_id }) => {
            if roles_intersect(auth_ctx.roles@, game_staff()) {
                &&& post matches ListGames::FindingTeam { team_id: kept }
                &&& kept@ == team_id@
                &&& action matches ListGamesAction::FindTeam { team_id: sought, org_id }
                &&& sought@ == team_id@
                &&& org_id@ == auth_ctx.org_id@
            } else {
                list_games_responds(post, action, forbidden_reply(game_staff()))
            }
        },
        (ListGames::FindingTeam { team_id }, ListGamesEvent::TeamLookedUp { found }) => {
            if found {
                &&& post is Listing
                &&& action matches ListGamesAction::List { team_id: listed }
                &&& listed@ == team_id@
            } else {
                list_games_responds(post, action, team_not_found_reply())
            }
        },
        (ListGames::Listing, ListGamesEvent::Listed) => {
            post is Done && action == ListGamesAction::SendGames(Status::Success)
        },
        (ListGames::FindingTeam { .. }, ListGamesEvent::Failed(failure)) => list_games_responds(
            post,
            action,
            failure_reply(failure),
        ),
        (ListGames::Listing, ListGamesEvent::Failed(failure)) => list_games_responds(
            post,
            action,
            failure_reply(failure),
        ),
        _ => list_games_responds(post, action, unexpected_reply()),
    }
}

/// One step of the listing of a team's games.
///
/// The caller must hold one of the roles that manage games. A team that the
/// caller's organization does not have is answered with `404`, and no game
/// is read.
pub fn list_games_for_team(state: ListGames, event: ListGamesEvent) -> (step: (
    ListGames,
    ListGamesAction,
))
    ensures
        list_games_step(state, event, step.0, step.1),
{
    match (state, event) {
        (ListGames::Idle, ListGamesEvent::Received { auth_ctx, team_id }) => {
            let whitelist = game_staff_whitelist();
            match guard(&auth_ctx, whitelist.as_slice()) {
                Ok(()) => (
                    ListGames::FindingTeam { team_id: team_id.clone() },
                    ListGamesAction::FindTeam { team_id, org_id: auth_ctx.org_id },
                ),
                Err(reply) => (ListGames::Done, ListGamesAction::Respond(reply)),
            }
        },
        (ListGames::FindingTeam { team_id }, ListGamesEvent::TeamLookedUp { found }) => {
            if found {
                (ListGames::Listing, ListGamesAction::List { team_id })
            } else {
                (
                    ListGames::Done,
                    ListGamesAction::Respond(Reply::text(Status::NotFound, "Team not found")),
                )
            }
        },
        (ListGames::Listing, ListGamesEvent::Listed) => (
            ListGames::Done,
            ListGamesAction::SendGames(Status::Success),
        ),
        (ListGames::FindingTeam { .. }, ListGamesEvent::Failed(failure)) => (
            ListGames::Done,
            ListGamesAction::Respond(db_err_to_response(failure)),
        ),
        (ListGames::Listing, ListGamesEvent::Failed(failure)) => (
            ListGames::Done,
            ListGamesAction::Respond(db_err_to_response(failure)),
        ),
        _ => (ListGames::Done, ListGamesAction::Respond(unexpected())),
    }
}

/// A batch of invites holds exactly one invite for every user that the
/// store resolved, however often it resolved that user; the invite is
/// pending and leads to the game.
pub proof fn law_one_invite_per_user(
    batch: InviteBatch,
    users: Seq<Seq<char>>,
    game_id: Seq<char>,
    user: Seq<char>,
)
    requires
        is_invite_batch(batch, users, game_id),
        users.contains(user),
    ensures
        exists|i: int|
            {
                &&& 0 <= i < batch.user_ids@.len()
                &&& (#[trigger] batch.user_ids@[i])@ == user
                &&& batch.game_ids@[i]@ == game_id
                &&& batch.statuses@[i] == InviteResponse::Pending
                &&& forall|j: int|
                    0 <= j < batch.user_ids@.len() && j != i ==> (#[trigger] batch.user_ids@[j])@
                        != user
            },
{
    let invited = texts(batch.user_ids@);
    lemma_ascending_is_duplicate_free(invited);
    assert(invited.contains(user));
    let i = choose|i: int| 0 <= i < invited.len() && invited[i] == user;
    assert(batch.user_ids@[i]@ == user);
    assert forall|j: int| 0 <= j < batch.user_ids@.len() && j != i implies (
    #[trigger] batch.user_ids@[j])@ != user by {
        assert(invited[j] == batch.user_ids@[j]@);
    }
}

/// Whether step `i` of a recorded run is a step of the creation of a game.
pub open spec fn is_creation_step(
    states: Seq<CreateGame>,
    events: Seq<CreateGameEvent>,
    actions: Seq<CreateGameAction>,
    i: int,
) -> bool {
    create_game_step(states[i], events[i], states[i + 1], actions[i])
}

/// Whether `states`, `events` and `actions` record a run of the creation of
/// a game from its start.
pub open spec fn is_creation_run(
    states: Seq<CreateGame>,
    events: Seq<CreateGameEvent>,
    actions: Seq<CreateGameAction>,
) -> bool {
    &&& states.len() == events.len() + 1
    &&& actions.len() == events.len()
    &&& states[0] is Idle
    &&& forall|i: int|
        0 <= i < events.len() ==> #[trigger] is_creation_step(states, events, actions, i)
}

/// The number of events that lead to `state` where nothing failed.
pub open spec fn creation_stage(state: CreateGame) -> int {
    match state {
        CreateGame::Idle => 0,
        CreateGame::Opening { .. } => 1,
        CreateGame::CheckingTeam { .. } => 2,
        CreateGame::InsertingEvent { .. } => 3,
        CreateGame::InsertingGame { .. } => 4,
        CreateGame::ResolvingUsers { .. } => 5,
        CreateGame::InsertingInvites { .. } => 6,
        CreateGame::Committing { .. } => 7,
        CreateGame::Done => 8,
    }
}

/// Whether `event` is the one that carries the creation on from the stage
/// `stage`.
pub open spec fn carries_on(stage: int, event: CreateGameEvent) -> bool {
    if stage == 0 {
        event is Received
    } else if stage == 1 {
        event is Begun
    } else if stage == 2 {
        event is TeamFound
    } else if stage == 3 {
        event is EventInserted
    } else if stage == 4 {
        event is GameInserted
    } else if stage == 5 {
        event is UsersResolved
    } else if stage == 6 {
        event is InvitesInserted
    } else {
        false
    }
}

/// A creation that is still under way after `n` events has taken each of
/// them in turn.
proof fn lemma_creation_in_turn(
    states: Seq<CreateGame>,
    events: Seq<CreateGameEvent>,
    actions: Seq<CreateGameAction>,
    n: int,
)
    requires
        is_creation_run(states, events, actions),
        0 <= n <= events.len(),
        !(states[n] is Done),
    ensures
        creation_stage(states[n]) == n,
        forall|j: int| 0 <= j < n ==> carries_on(j, #[trigger] events[j]),
    decreases n,
{
    if n > 0 {
        assert(is_creation_step(states, events, actions, n - 1));
        lemma_creation_in_turn(states, events, actions, n - 1);
    }
}

/// The creation of a game is all or nothing: in every run, a commit is asked
/// for only after the schedule event, the game and the invites were written,
/// with no failed store call before it.
pub proof fn law_commit_only_after_all_writes(
    states: Seq<CreateGame>,
    events: Seq<CreateGameEvent>,
    actions: Seq<CreateGameAction>,
    i: int,
)
    requires
        is_creation_run(states, events, actions),
        0 <= i < actions.len(),
        actions[i] is Commit,
    ensures
        i == 6,
        events[3] is EventInserted,
        events[4] is GameInserted,
        events[6] is InvitesInserted,
        forall|j: int| 0 <= j <= i ==> !(#[trigger] events[j] is Failed),
{
    assert(is_creation_step(states, events, actions, i));
    assert(states[i] is InsertingInvites);
    lemma_creation_in_turn(states, events, actions, i);
    assert(carries_on(3, events[3]));
    assert(carries_on(4, events[4]));
    assert forall|j: int| 0 <= j <= i implies !(#[trigger] events[j] is Failed) by {
        if j < i {
            assert(carries_on(j, events[j]));
        }
    }
}

/// After a store call failed, the creation of a game asks for no write and
/// no commit any more: it rolls back, and every later step does the same.
pub proof fn law_failure_ends_creation(
    states: Seq<CreateGame>,
    events: Seq<CreateGameEvent>,
    actions: Seq<CreateGameAction>,
    failed: int,
    later: int,
)
    requires
        is_creation_run(states, events, actions),
        0 <= failed <= later < events.len(),
        events[failed] is Failed,
    ensures
        actions[later] is Abort,
        states[later + 1] is Done,
    decreases later - failed,
{
    assert(is_creation_step(states, events, actions, later));
    if later > failed {
        law_failure_ends_creation(states, events, actions, failed, later - 1);
    }
}

} // verus!
