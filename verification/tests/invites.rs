use clubhouse::api::{Body, Reply, Status, StoreFailure};
use clubhouse::game::{InviteResponse, InviteResponseFromUser};
use clubhouse::game_invite::{
    answer_invite_reply, answer_invite_to_game, list_invites_to_game, list_own_game_invites,
    listing_reply, AnswerInviteToGame, GameInvite, GameInvitesQuery, InviteUpdate,
    OwnInvitesQuery,
};
use clubhouse::roles::{AuthContext, Role};

fn caller(user: &str) -> AuthContext {
    AuthContext {
        user_id: user.to_string(),
        session_id: "s1".to_string(),
        org_id: "org1".to_string(),
        roles: vec![Role::Player],
    }
}

fn invite(id: &str, user: &str, response: InviteResponse) -> GameInvite {
    GameInvite {
        id: id.to_string(),
        user_id: user.to_string(),
        game_id: "g1".to_string(),
        response,
    }
}

fn answer(invite_id: &str, response: InviteResponseFromUser) -> AnswerInviteToGame {
    AnswerInviteToGame { invite_id: invite_id.to_string(), response }
}

#[test]
fn answer_carries_the_callers_id() {
    let update = answer_invite_to_game(&caller("u1"), answer("i1", InviteResponseFromUser::Declined));
    assert_eq!(
        update,
        InviteUpdate {
            invite_id: "i1".to_string(),
            user_id: "u1".to_string(),
            response: InviteResponse::Declined,
        }
    );
}

#[test]
fn answering_own_invite_changes_its_response() {
    let mut own = invite("i1", "u1", InviteResponse::Pending);
    let update = answer_invite_to_game(&caller("u1"), answer("i1", InviteResponseFromUser::Accepted));
    assert!(update.reaches(&own));
    assert!(own.take(&update));
    assert_eq!(own, invite("i1", "u1", InviteResponse::Accepted));
}

#[test]
fn answering_an_invite_of_another_user_changes_nothing() {
    let mut foreign = invite("i2", "u2", InviteResponse::Pending);
    let update = answer_invite_to_game(&caller("u1"), answer("i2", InviteResponseFromUser::Accepted));
    assert!(!update.reaches(&foreign));
    assert!(!foreign.take(&update));
    assert_eq!(foreign, invite("i2", "u2", InviteResponse::Pending));
    assert_eq!(answer_invite_reply(Ok(())).status, Status::Success);
}

#[test]
fn answering_reaches_only_the_named_invite() {
    let mut invites = vec![
        invite("i1", "u1", InviteResponse::Pending),
        invite("i2", "u2", InviteResponse::Pending),
        invite("i3", "u1", InviteResponse::Unsure),
    ];
    let update = answer_invite_to_game(&caller("u1"), answer("i3", InviteResponseFromUser::Declined));
    let reached: Vec<bool> = invites.iter_mut().map(|i| i.take(&update)).collect();
    assert_eq!(reached, vec![false, false, true]);
    assert_eq!(invites[0].response, InviteResponse::Pending);
    assert_eq!(invites[1].response, InviteResponse::Pending);
    assert_eq!(invites[2].response, InviteResponse::Declined);
}

#[test]
fn an_answer_can_be_changed_but_not_withdrawn() {
    let mut own = invite("i1", "u1", InviteResponse::Pending);
    for response in [
        InviteResponseFromUser::Accepted,
        InviteResponseFromUser::Unsure,
        InviteResponseFromUser::Declined,
    ] {
        let update = answer_invite_to_game(&caller("u1"), answer("i1", response));
        assert!(own.take(&update));
        assert_eq!(own.response, response.recorded());
        assert_ne!(own.response, InviteResponse::Pending);
    }
}

#[test]
fn answer_reply_follows_the_update() {
    assert_eq!(
        answer_invite_reply(Ok(())),
        Reply { status: Status::Success, set_cookie: None, body: Body::Empty }
    );
    assert_eq!(
        answer_invite_reply(Err(StoreFailure::Other)),
        Reply::text(Status::InternalServerError, "Unexpected Error")
    );
    assert_eq!(
        answer_invite_reply(Err(StoreFailure::RowNotFound)),
        Reply::text(Status::NotFound, "Not found")
    );
}

#[test]
fn own_invites_are_listed_for_the_caller() {
    assert_eq!(
        list_own_game_invites(&caller("u1")),
        OwnInvitesQuery { user_id: "u1".to_string() }
    );
}

#[test]
fn invites_to_a_game_are_listed_within_the_callers_organization() {
    assert_eq!(
        list_invites_to_game(&caller("u1"), "g5".to_string()),
        GameInvitesQuery { game_id: "g5".to_string(), org_id: "org1".to_string() }
    );
}

#[test]
fn listings_send_rows_or_the_failure() {
    assert_eq!(listing_reply(Ok(())), Ok(Status::Success));
    assert_eq!(
        listing_reply(Err(StoreFailure::Other)),
        Err(Reply::text(Status::InternalServerError, "Unexpected Error"))
    );
    assert_eq!(
        listing_reply(Err(StoreFailure::RowNotFound)),
        Err(Reply::text(Status::NotFound, "Not found"))
    );
}
