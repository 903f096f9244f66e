//! Roles, the per-request identity, and the whitelist check that guards
//! every privileged operation.

use vstd::prelude::*;
use vstd::string::StringExecFns;
use crate::api::Body;
use crate::api::BodyView;
use crate::api::db_err_to_response;
use crate::api::failure_reply;
use crate::api::Reply;
use crate::api::ReplyView;
use crate::api::Status;
use crate::api::StoreFailure;
use crate::api::str_equal;
use crate::game::JustId;

verus! {

/// A role that an assignment gives to a user. A user may hold several roles
/// at once, or none.
#[derive(Debug, Clone, Copy, PartialEq, Eq, Hash, Structural)]
pub enum Role {
    SuperAdmin,
    OrgAdmin,
    Coach,
    Player,
}

/// The identity of the caller that the authentication middleware attaches
/// to a request.
#[derive(Debug, Clone, PartialEq, Eq)]
pub struct AuthContext {
    pub user_id: String,
    pub session_id: String,
    pub org_id: String,
    pub roles: Vec<Role>,
}

/// The mathematical value of an [`AuthContext`].
pub struct AuthContextView {
    pub user_id: Seq<char>,
    pub session_id: Seq<char>,
    pub org_id: Seq<char>,
    pub roles: Seq<Role>,
}

impl View for AuthContext {
    type V = AuthContextView;

    open spec fn view(&self) -> AuthContextView {
        AuthContextView {
            user_id: self.user_id@,
            session_id: self.session_id@,
            org_id: self.org_id@,
            roles: self.roles@,
        }
    }
}

/// Why a role check turned a caller away: the wording sent back to the client.
#[derive(Debug, Clone, PartialEq, Eq)]
pub struct Forbidden {
    pub message: String,
}

/// The name of a role as it appears in messages.
pub open spec fn role_label(role: Role) -> Seq<char> {
    match role {
        Role::SuperAdmin => "SuperAdmin"@,
        Role::OrgAdmin => "OrgAdmin"@,
        Role::Coach => "Coach"@,
        Role::Player => "Player"@,
    }
}

/// The labels of `roles`, separated by a comma and a space.
pub open spec fn role_list(roles: Seq<Role>) -> Seq<char>
    decreases roles.len(),
{
    if roles.len() == 0 {
        Seq::empty()
    } else if roles.len() == 1 {
        role_label(roles[0])
    } else {
        role_list(roles.drop_last()) + ", "@ + role_label(roles.last())
    }
}

/// The message of a failed check against `whitelist`.
pub open spec fn denied_message(whitelist: Seq<Role>) -> Seq<char> {
    "Access denied. Needs one of roles: ["@ + role_list(whitelist) + "]"@
}

/// Whether some role of `held` is on `whitelist`.
pub open spec fn roles_intersect(held: Seq<Role>, whitelist: Seq<Role>) -> bool {
    exists|i: int| 0 <= i < held.len() && whitelist.contains(#[trigger] held[i])
}

impl Role {
    /// The name of the role as it appears in messages.
    pub fn label(self) -> (name: &'static str)
        ensures
            name@ == role_label(self),
    {
        match self {
            Role::SuperAdmin => "SuperAdmin",
            Role::OrgAdmin => "OrgAdmin",
            Role::Coach => "Coach",
            Role::Player => "Player",
        }
    }
}

/// Whether `role` occurs in `whitelist`.
pub fn whitelist_contains(whitelist: &[Role], role: Role) -> (found: bool)
    ensures
        found == whitelist@.contains(role),
{
    let mut j: usize = 0;
    while j < whitelist.len()
        invariant
            j <= whitelist.len(),
            forall|k: int| 0 <= k < j ==> whitelist@[k] != role,
        decreases whitelist.len() - j,
    {
        if whitelist[j] == role {
            return true;
        }
        j += 1;
    }
    false
}

/// Builds the message of a failed check against `whitelist`.
pub fn denied_message_text(whitelist: &[Role]) -> (text: String)
    ensures
        text@ == denied_message(whitelist@),
{
    let mut list = String::new();
    let mut j: usize = 0;
    while j < whitelist.len()
        invariant
            j <= whitelist.len(),
            list@ == role_list(whitelist@.take(j as int)),
        decreases whitelist.len() - j,
    {
        proof {
            let next = whitelist@.take(j + 1);
            assert(next.drop_last() == whitelist@.take(j as int));
            assert(next.last() == whitelist@[j as int]);
            if j == 0 {
                assert(list@ + role_label(whitelist@[0]) == role_label(whitelist@[0]));
            }
        }
        if j > 0 {
            list.append(", ");
        }
        list.append(whitelist[j].label());
        j += 1;
    }
    proof {
        assert(whitelist@.take(whitelist@.len() as int) == whitelist@);
    }
    let mut text = String::from_str("Access denied. Needs one of roles: [");
    text.append(list.as_str());
    text.append("]");
    text
}

/// Lets the caller through iff it holds at least one role of `role_whitelist`.
/// The check knows no hierarchy: a role passes only where the whitelist names
/// it. A caller without roles passes no check.
pub fn check_user_roles(auth_ctx: &AuthContext, role_whitelist: &[Role]) -> (verdict: Result<
    (),
    Forbidden,
>)
    ensures
        verdict is Ok <==> roles_intersect(auth_ctx.roles@, role_whitelist@),
        verdict matches Err(denied) ==> denied.message@ == denied_message(role_whitelist@),
{
    let mut i: usize = 0;
    while i < auth_ctx.roles.len()
        invariant
            i <= auth_ctx.roles.len(),
            forall|k: int| 0 <= k < i ==> !role_whitelist@.contains(#[trigger] auth_ctx.roles@[k]),
        decreases auth_ctx.roles.len() - i,
    {
        if whitelist_contains(role_whitelist, auth_ctx.roles[i]) {
            return Ok(());
        }
        i += 1;
    }
    Err(Forbidden { message: denied_message_text(role_whitelist) })
}

/// The reply to a caller who holds no role of `whitelist`.
pub open spec fn forbidden_reply(whitelist: Seq<Role>) -> ReplyView {
    ReplyView {
        status: Status::Forbidden,
        set_cookie: None,
        body: BodyView::Text(denied_message(whitelist)),
    }
}

/// The role check as a handler uses it: the caller passes, or the reply that
/// turns it away is returned.
pub fn guard(auth_ctx: &AuthContext, role_whitelist: &[Role]) -> (verdict: Result<(), Reply>)
    ensures
        verdict is Ok <==> roles_intersect(auth_ctx.roles@, role_whitelist@),
        verdict matches Err(reply) ==> reply@ == forbidden_reply(role_whitelist@),
{
    match check_user_roles(auth_ctx, role_whitelist) {
        Ok(()) => Ok(()),
        Err(denied) => Err(Reply::text(Status::Forbidden, denied.message.as_str())),
    }
}

/// Those who manage games: the administrators and the coaches.
pub open spec fn game_staff() -> Seq<Role> {
    seq![Role::OrgAdmin, Role::SuperAdmin, Role::Coach]
}

/// Those who manage an organization's users and invites.
pub open spec fn org_staff() -> Seq<Role> {
    seq![Role::OrgAdmin, Role::SuperAdmin]
}

/// The whitelists follow the ranks of the roles: a super-administrator is
/// on both, an administrator of the organization too, a coach manages
/// games only, and a player is on neither.
pub proof fn law_whitelists_follow_the_ranks()
    ensures
        forall|role: Role| game_staff().contains(role) <==> role != Role::Player,
        forall|role: Role|
            org_staff().contains(role) <==> role == Role::SuperAdmin || role == Role::OrgAdmin,
        forall|role: Role| org_staff().contains(role) ==> game_staff().contains(role),
{
    assert(game_staff()[0] == Role::OrgAdmin);
    assert(game_staff()[1] == Role::SuperAdmin);
    assert(game_staff()[2] == Role::Coach);
    assert(org_staff()[0] == Role::OrgAdmin);
    assert(org_staff()[1] == Role::SuperAdmin);
}

/// The whitelist of those who manage games.
pub fn game_staff_whitelist() -> (whitelist: Vec<Role>)
    ensures
        whitelist@ == game_staff(),
{
    let whitelist = vec![Role::OrgAdmin, Role::SuperAdmin, Role::Coach];
    assert(whitelist@ =~= game_staff());
    whitelist
}

/// The whitelist of those who manage an organization's users and invites.
pub fn org_staff_whitelist() -> (whitelist: Vec<Role>)
    ensures
        whitelist@ == org_staff(),
{
    let whitelist = vec![Role::OrgAdmin, Role::SuperAdmin];
    assert(whitelist@ =~= org_staff());
    whitelist
}

/// The check is the intersection of two sets: it lets the caller through iff
/// the set of its roles and the set of the whitelisted roles have a member
/// in common.
pub proof fn law_check_is_set_intersection(held: Seq<Role>, whitelist: Seq<Role>)
    ensures
        roles_intersect(held, whitelist) <==> held.to_set().intersect(whitelist.to_set())
            != Set::<Role>::empty(),
{
    let common = held.to_set().intersect(whitelist.to_set());
    if roles_intersect(held, whitelist) {
        let i = choose|i: int| 0 <= i < held.len() && whitelist.contains(#[trigger] held[i]);
        assert(held.contains(held[i]));
        assert(common.contains(held[i]));
        assert(!Set::<Role>::empty().contains(held[i]));
    }
    if common != Set::<Role>::empty() {
        assert(!(common =~= Set::<Role>::empty()));
        let role = choose|role: Role| common.contains(role);
        assert(held.contains(role));
        let i = choose|i: int| 0 <= i < held.len() && held[i] == role;
        assert(whitelist.contains(held[i]));
    }
}

/// A caller without roles passes no check, whatever the whitelist.
pub proof fn law_no_role_passes_nothing(whitelist: Seq<Role>)
    ensures
        !roles_intersect(Seq::<Role>::empty(), whitelist),
{
}

/// The check knows no hierarchy: a role passes only where the whitelist
/// names it, so a super-administrator is turned away by a whitelist that
/// does not list `SuperAdmin`.
pub proof fn law_check_has_no_hierarchy(role: Role, whitelist: Seq<Role>)
    ensures
        roles_intersect(seq![role], whitelist) <==> whitelist.contains(role),
{
    let held = seq![role];
    if whitelist.contains(role) {
        assert(whitelist.contains(held[0]));
    }
}

/// The name of a role as the store spells it.
pub open spec fn role_db_name(role: Role) -> Seq<char> {
    match role {
        Role::SuperAdmin => "super_admin"@,
        Role::OrgAdmin => "org_admin"@,
        Role::Coach => "coach"@,
        Role::Player => "player"@,
    }
}

impl Role {
    /// The name of the role as the store spells it.
    pub fn db_name(self) -> (name: &'static str)
        ensures
            name@ == role_db_name(self),
    {
        match self {
            Role::SuperAdmin => "super_admin",
            Role::OrgAdmin => "org_admin",
            Role::Coach => "coach",
            Role::Player => "player",
        }
    }

    /// The role that the store spells `name`, if there is one.
    pub fn from_db_name(name: &str) -> (role: Option<Role>)
        ensures
            role matches Some(found) ==> role_db_name(found) == name@,
            role is None ==> forall|any: Role| role_db_name(any) != name@,
    {
        if str_equal(name, "super_admin") {
            Some(Role::SuperAdmin)
        } else if str_equal(name, "org_admin") {
            Some(Role::OrgAdmin)
        } else if str_equal(name, "coach") {
            Some(Role::Coach)
        } else if str_equal(name, "player") {
            Some(Role::Player)
        } else {
            None
        }
    }
}

/// No two roles are spelled alike, so a role is found again by its name.
pub proof fn law_db_names_are_distinct(a: Role, b: Role)
    requires
        role_db_name(a) == role_db_name(b),
    ensures
        a == b,
{
    reveal_strlit("super_admin");
    reveal_strlit("org_admin");
    reveal_strlit("coach");
    reveal_strlit("player");
    assert("super_admin"@.len() == 11);
    assert("org_admin"@.len() == 9);
    assert("coach"@.len() == 5);
    assert("player"@.len() == 6);
}

/// One assignment of a role as the store holds it.
#[derive(Debug, Clone, Copy, PartialEq, Eq)]
pub struct RoleAssignment {
    pub role: Role,
}

/// The answer to the listing of role assignments: whatever the read gave,
/// the caller learns only that the request was taken.
pub fn list_role_assignments(outcome: Result<RoleAssignment, StoreFailure>) -> (answer: (
    Status,
    String,
))
    ensures
        answer.0 == Status::Created,
        answer.1@ == "ok"@,
{
    (Status::Created, String::from_str("ok"))
}

/// The rank of a role: a role may do what the roles below it may do.
pub open spec fn role_rank(role: Role) -> int {
    match role {
        Role::SuperAdmin => 3,
        Role::OrgAdmin => 2,
        Role::Coach => 1,
        Role::Player => 0,
    }
}

/// The roles that are accepted for what concerns `level`: the
/// super-administrator always, the administrator of the organization for
/// what concerns administrators and below, the coach for what concerns
/// coaches and below. A player is accepted for nothing.
pub open spec fn accepted_at(level: Role) -> Seq<Role> {
    match level {
        Role::SuperAdmin => seq![Role::SuperAdmin],
        Role::OrgAdmin => seq![Role::SuperAdmin, Role::OrgAdmin],
        Role::Coach => seq![Role::SuperAdmin, Role::OrgAdmin, Role::Coach],
        Role::Player => seq![Role::SuperAdmin, Role::OrgAdmin, Role::Coach],
    }
}

/// The whitelist of the roles that are accepted for what concerns `level`.
pub fn whitelist_at(level: Role) -> (whitelist: Vec<Role>)
    ensures
        whitelist@ == accepted_at(level),
{
    let whitelist = match level {
        Role::SuperAdmin => vec![Role::SuperAdmin],
        Role::OrgAdmin => vec![Role::SuperAdmin, Role::OrgAdmin],
        Role::Coach => vec![Role::SuperAdmin, Role::OrgAdmin, Role::Coach],
        Role::Player => vec![Role::SuperAdmin, Role::OrgAdmin, Role::Coach],
    };
    assert(whitelist@ =~= accepted_at(level));
    whitelist
}

/// A role is accepted for what concerns `level` iff it is no player's and
/// ranks at least as high as `level`.
pub proof fn law_accepted_roles_rank_at_least(level: Role, role: Role)
    ensures
        accepted_at(level).contains(role) <==> role != Role::Player && role_rank(role)
            >= role_rank(level),
{
    let accepted = accepted_at(level);
    assert(accepted[0] == Role::SuperAdmin);
    if accepted.len() > 1 {
        assert(accepted[1] == Role::OrgAdmin);
    }
    if accepted.len() > 2 {
        assert(accepted[2] == Role::Coach);
    }
}

/// The request to give a role to a user, or to take it away.
#[derive(Debug, Clone, PartialEq, Eq)]
pub struct RoleAssignmentParams {
    pub user_id: String,
    pub role: Role,
}

/// A role of a user within an organization: the assignment to write, or the
/// one to delete.
#[derive(Debug, Clone, PartialEq, Eq)]
pub struct OrgRoleAssignment {
    pub user_id: String,
    pub role: Role,
    pub org_id: String,
}

/// Whether `asked` is what a caller who passed the check asks for with
/// `params`: the assignment named there, within the caller's organization;
/// and whether it is the refusal of one who did not pass.
pub open spec fn role_change_asked(
    auth_ctx: AuthContext,
    params: RoleAssignmentParams,
    asked: Result<OrgRoleAssignment, Reply>,
) -> bool {
    if roles_intersect(auth_ctx.roles@, accepted_at(params.role)) {
        &&& asked matches Ok(change)
        &&& change.user_id@ == params.user_id@
        &&& change.role == params.role
        &&& change.org_id@ == auth_ctx.org_id@
    } else {
        asked matches Err(reply) && reply@ == forbidden_reply(accepted_at(params.role))
    }
}

/// Checks the caller against the roles accepted for the role of `params`
/// and binds the assignment to the caller's organization.
fn role_change(auth_ctx: &AuthContext, params: RoleAssignmentParams) -> (asked: Result<
    OrgRoleAssignment,
    Reply,
>)
    ensures
        role_change_asked(*auth_ctx, params, asked),
{
    let whitelist = whitelist_at(params.role);
    match guard(auth_ctx, whitelist.as_slice()) {
        Ok(()) => Ok(
            OrgRoleAssignment {
                user_id: params.user_id,
                role: params.role,
                org_id: auth_ctx.org_id.clone(),
            },
        ),
        Err(reply) => Err(reply),
    }
}

/// The assignment to write for `params`. The caller must hold a role that
/// is accepted for what concerns the role to give, and the assignment
/// reaches the user only within the caller's organization.
pub fn assign_role(auth_ctx: &AuthContext, params: RoleAssignmentParams) -> (asked: Result<
    OrgRoleAssignment,
    Reply,
>)
    ensures
        role_change_asked(*auth_ctx, params, asked),
{
    role_change(auth_ctx, params)
}

/// The reply to the assignment of a role, given how the insert went: the id
/// of the assignment, `404` where the caller's organization has no such
/// user.
pub open spec fn role_assigned_reply(outcome: Result<JustId, StoreFailure>) -> ReplyView {
    match outcome {
        Ok(row) => ReplyView {
            status: Status::Created,
            set_cookie: None,
            body: BodyView::Json(row.id@),
        },
        Err(failure) => failure_reply(failure),
    }
}

/// The reply to the assignment of a role, given how the insert went.
pub fn assign_role_reply(outcome: Result<JustId, StoreFailure>) -> (reply: Reply)
    ensures
        reply@ == role_assigned_reply(outcome),
{
    match outcome {
        Ok(row) => Reply::json(Status::Created, row.id.as_str()),
        Err(failure) => db_err_to_response(failure),
    }
}

/// The assignment to delete for `params`, under the same check as its
/// writing. The delete reaches the assignment only within the caller's
/// organization.
pub fn unassign_role(auth_ctx: &AuthContext, params: RoleAssignmentParams) -> (asked: Result<
    OrgRoleAssignment,
    Reply,
>)
    ensures
        role_change_asked(*auth_ctx, params, asked),
{
    role_change(auth_ctx, params)
}

/// The reply to the deletion of an assignment, given how the delete went:
/// `204` whether or not a row went.
pub open spec fn role_unassigned_reply(outcome: Result<(), StoreFailure>) -> ReplyView {
    match outcome {
        Ok(()) => ReplyView { status: Status::NoContent, set_cookie: None, body: BodyView::Empty },
        Err(failure) => failure_reply(failure),
    }
}

/// The reply to the deletion of an assignment, given how the delete went.
pub fn unassign_role_reply(outcome: Result<(), StoreFailure>) -> (reply: Reply)
    ensures
        reply@ == role_unassigned_reply(outcome),
{
    match outcome {
        Ok(()) => Reply { status: Status::NoContent, set_cookie: None, body: Body::Empty },
        Err(failure) => db_err_to_response(failure),
    }
}

} // verus!
