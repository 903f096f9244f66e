use clubhouse::api::{Body, Status, StoreFailure};
use clubhouse::game::JustId;
use clubhouse::roles::{
    assign_role, assign_role_reply, check_user_roles, denied_message_text, game_staff_whitelist,
    guard, list_role_assignments, org_staff_whitelist, unassign_role, unassign_role_reply,
    whitelist_at, whitelist_contains, AuthContext, OrgRoleAssignment, Role, RoleAssignment,
    RoleAssignmentParams,
};
use clubhouse::api::Reply;

const ALL_ROLES: [Role; 4] = [Role::SuperAdmin, Role::OrgAdmin, Role::Coach, Role::Player];

fn caller(roles: Vec<Role>) -> AuthContext {
    AuthContext {
        user_id: "u1".to_string(),
        session_id: "s1".to_string(),
        org_id: "o1".to_string(),
        roles,
    }
}

fn subset(mask: usize) -> Vec<Role> {
    let mut roles = Vec::new();
    for (bit, role) in ALL_ROLES.iter().enumerate() {
        if mask & (1 << bit) != 0 {
            roles.push(*role);
        }
    }
    roles
}

#[test]
fn check_passes_on_a_shared_role() {
    let ctx = caller(vec![Role::Player, Role::Coach]);
    assert!(check_user_roles(&ctx, &[Role::OrgAdmin, Role::SuperAdmin, Role::Coach]).is_ok());
}

#[test]
fn check_refuses_without_a_shared_role() {
    let ctx = caller(vec![Role::Player]);
    let denied =
        check_user_roles(&ctx, &[Role::OrgAdmin, Role::SuperAdmin, Role::Coach]).unwrap_err();
    assert_eq!(
        denied.message,
        "Access denied. Needs one of roles: [OrgAdmin, SuperAdmin, Coach]"
    );
}

#[test]
fn check_is_the_intersection_of_both_sets() {
    for held in 0..16 {
        for listed in 0..16 {
            let ctx = caller(subset(held));
            let whitelist = subset(listed);
            let verdict = check_user_roles(&ctx, &whitelist);
            assert_eq!(verdict.is_ok(), held & listed != 0, "held {held} listed {listed}");
        }
    }
}

#[test]
fn check_refuses_a_caller_without_roles() {
    let ctx = caller(vec![]);
    for listed in 0..16 {
        assert!(check_user_roles(&ctx, &subset(listed)).is_err());
    }
}

#[test]
fn check_refuses_everyone_on_an_empty_whitelist() {
    let ctx = caller(ALL_ROLES.to_vec());
    let denied = check_user_roles(&ctx, &[]).unwrap_err();
    assert_eq!(denied.message, "Access denied. Needs one of roles: []");
}

#[test]
fn check_knows_no_hierarchy() {
    let ctx = caller(vec![Role::SuperAdmin]);
    assert!(check_user_roles(&ctx, &[Role::Coach, Role::Player]).is_err());
    assert!(check_user_roles(&ctx, &[Role::Coach, Role::SuperAdmin]).is_ok());
}

#[test]
fn check_counts_a_repeated_role_once() {
    let ctx = caller(vec![Role::Coach, Role::Coach]);
    assert!(check_user_roles(&ctx, &[Role::Coach]).is_ok());
    assert!(check_user_roles(&ctx, &[Role::Player]).is_err());
}

#[test]
fn denied_message_names_one_role() {
    assert_eq!(
        denied_message_text(&[Role::Player]),
        "Access denied. Needs one of roles: [Player]"
    );
}

#[test]
fn whitelist_lookup_finds_what_is_listed() {
    assert!(whitelist_contains(&[Role::Coach, Role::Player], Role::Player));
    assert!(!whitelist_contains(&[Role::Coach, Role::Player], Role::OrgAdmin));
    assert!(!whitelist_contains(&[], Role::SuperAdmin));
}

#[test]
fn guard_answers_with_forbidden() {
    let ctx = caller(vec![]);
    let reply = guard(&ctx, &[Role::SuperAdmin]).unwrap_err();
    assert_eq!(reply.status, Status::Forbidden);
    assert_eq!(reply.status.code(), 403);
    assert!(reply.set_cookie.is_none());
    assert_eq!(
        reply.body,
        Body::Text("Access denied. Needs one of roles: [SuperAdmin]".to_string())
    );
}

#[test]
fn guard_lets_a_listed_role_through() {
    let ctx = caller(vec![Role::OrgAdmin]);
    assert_eq!(guard(&ctx, &[Role::SuperAdmin, Role::OrgAdmin]), Ok(()));
}

#[test]
fn whitelists_name_their_roles_in_order() {
    assert_eq!(game_staff_whitelist(), vec![Role::OrgAdmin, Role::SuperAdmin, Role::Coach]);
    assert_eq!(org_staff_whitelist(), vec![Role::OrgAdmin, Role::SuperAdmin]);
}

#[test]
fn super_admin_is_on_every_whitelist() {
    assert!(game_staff_whitelist().contains(&Role::SuperAdmin));
    assert!(org_staff_whitelist().contains(&Role::SuperAdmin));
    assert!(!org_staff_whitelist().contains(&Role::Coach));
    assert!(!game_staff_whitelist().contains(&Role::Player));
}

#[test]
fn store_names_of_roles_round_trip() {
    assert_eq!(Role::SuperAdmin.db_name(), "super_admin");
    assert_eq!(Role::OrgAdmin.db_name(), "org_admin");
    assert_eq!(Role::Coach.db_name(), "coach");
    assert_eq!(Role::Player.db_name(), "player");
    for role in ALL_ROLES {
        assert_eq!(Role::from_db_name(role.db_name()), Some(role));
    }
}

#[test]
fn unknown_store_names_are_no_role() {
    assert_eq!(Role::from_db_name(""), None);
    assert_eq!(Role::from_db_name("Coach"), None);
    assert_eq!(Role::from_db_name("coach "), None);
    assert_eq!(Role::from_db_name("tenant_admin"), None);
}

#[test]
fn labels_of_roles_are_their_names() {
    assert_eq!(Role::SuperAdmin.label(), "SuperAdmin");
    assert_eq!(Role::OrgAdmin.label(), "OrgAdmin");
    assert_eq!(Role::Coach.label(), "Coach");
    assert_eq!(Role::Player.label(), "Player");
}

#[test]
fn listing_role_assignments_only_acknowledges() {
    let found = list_role_assignments(Ok(RoleAssignment { role: Role::Coach }));
    assert_eq!(found, (Status::Created, "ok".to_string()));
    let failed = list_role_assignments(Err(StoreFailure::RowNotFound));
    assert_eq!(failed, (Status::Created, "ok".to_string()));
}

fn rank(role: Role) -> u8 {
    match role {
        Role::SuperAdmin => 3,
        Role::OrgAdmin => 2,
        Role::Coach => 1,
        Role::Player => 0,
    }
}

#[test]
fn whitelists_by_level_name_the_roles_from_the_top() {
    assert_eq!(whitelist_at(Role::SuperAdmin), vec![Role::SuperAdmin]);
    assert_eq!(whitelist_at(Role::OrgAdmin), vec![Role::SuperAdmin, Role::OrgAdmin]);
    assert_eq!(whitelist_at(Role::Coach), vec![Role::SuperAdmin, Role::OrgAdmin, Role::Coach]);
    assert_eq!(whitelist_at(Role::Player), vec![Role::SuperAdmin, Role::OrgAdmin, Role::Coach]);
}

#[test]
fn whitelists_by_level_follow_the_ranks() {
    for level in ALL_ROLES {
        for role in ALL_ROLES {
            let accepted = whitelist_at(level).contains(&role);
            assert_eq!(accepted, role != Role::Player && rank(role) >= rank(level));
        }
    }
}

fn change(user: &str, role: Role) -> RoleAssignmentParams {
    RoleAssignmentParams { user_id: user.to_string(), role }
}

#[test]
fn assigning_a_role_needs_a_role_of_its_rank() {
    for held in ALL_ROLES {
        for given in ALL_ROLES {
            let asked = assign_role(&caller(vec![held]), change("u2", given));
            let allowed = held != Role::Player && rank(held) >= rank(given);
            assert_eq!(asked.is_ok(), allowed, "{held:?} gives {given:?}");
            assert_eq!(unassign_role(&caller(vec![held]), change("u2", given)), asked);
        }
    }
}

#[test]
fn assigning_a_role_stays_within_the_callers_organization() {
    assert_eq!(
        assign_role(&caller(vec![Role::OrgAdmin]), change("u2", Role::Coach)),
        Ok(OrgRoleAssignment {
            user_id: "u2".to_string(),
            role: Role::Coach,
            org_id: "o1".to_string()
        })
    );
}

#[test]
fn assigning_a_role_above_ones_own_is_forbidden() {
    assert_eq!(
        assign_role(&caller(vec![Role::Coach]), change("u2", Role::OrgAdmin)),
        Err(Reply::text(
            Status::Forbidden,
            "Access denied. Needs one of roles: [SuperAdmin, OrgAdmin]"
        ))
    );
    assert_eq!(
        unassign_role(&caller(vec![Role::OrgAdmin]), change("u2", Role::SuperAdmin)),
        Err(Reply::text(Status::Forbidden, "Access denied. Needs one of roles: [SuperAdmin]"))
    );
    assert!(assign_role(&caller(vec![]), change("u2", Role::Player)).is_err());
}

#[test]
fn role_assignment_replies() {
    assert_eq!(
        assign_role_reply(Ok(JustId { id: "ra1".to_string() })),
        Reply::json(Status::Created, "ra1")
    );
    assert_eq!(
        assign_role_reply(Err(StoreFailure::RowNotFound)),
        Reply::text(Status::NotFound, "Not found")
    );
    assert_eq!(
        assign_role_reply(Err(StoreFailure::UniqueViolation)),
        Reply::text(Status::InternalServerError, "Unexpected Error")
    );
    assert_eq!(unassign_role_reply(Ok(())), Reply::empty(Status::NoContent));
    assert_eq!(
        unassign_role_reply(Err(StoreFailure::Other)),
        Reply::text(Status::InternalServerError, "Unexpected Error")
    );
}
