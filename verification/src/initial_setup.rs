//! The first run: the initial organization with its super-administrator.
//!
//! The setup writes the organization, the user, the user's role and the mark
//! that it ran, in one transaction. Whatever fails, the setup ends with
//! `Abort` and nothing of it stays; the process then stops.

use vstd::prelude::*;
use vstd::string::StringExecFns;
use crate::api::StoreFailure;
use crate::game::JustId;
use crate::roles::Role;

verus! {

/// The persistent configuration.
#[derive(Debug, Clone, Copy, PartialEq, Eq, Structural)]
pub struct ConfigModel {
    pub is_initialized: bool,
}

/// Whether the setup is still to run.
pub fn setup_is_due(config: &ConfigModel) -> (due: bool)
    ensures
        due == !config.is_initialized,
{
    !config.is_initialized
}

/// The step at which the setup failed.
#[derive(Debug, Clone, Copy, PartialEq, Eq, Hash, Structural)]
pub enum SetupError {
    Begin,
    Org,
    User,
    Role,
    Config,
    Commit,
    OutOfTurn,
}

impl SetupError {
    /// The words with which the process stops.
    pub open spec fn spec_message(self) -> Seq<char> {
        match self {
            SetupError::Begin => "could not start init transaction"@,
            SetupError::Org => "could not create initial org"@,
            SetupError::User => "could not create initial user"@,
            SetupError::Role => "could not create initial role assignment"@,
            SetupError::Config => "could not set initial config"@,
            SetupError::Commit => "failed to initialize application"@,
            SetupError::OutOfTurn => "initial setup was driven out of turn"@,
        }
    }

    /// The words with which the process stops.
    pub fn message(self) -> (text: String)
        ensures
            text@ == self.spec_message(),
    {
        match self {
            SetupError::Begin => String::from_str("could not start init transaction"),
            SetupError::Org => String::from_str("could not create initial org"),
            SetupError::User => String::from_str("could not create initial user"),
            SetupError::Role => String::from_str("could not create initial role assignment"),
            SetupError::Config => String::from_str("could not set initial config"),
            SetupError::Commit => String::from_str("failed to initialize application"),
            SetupError::OutOfTurn => String::from_str("initial setup was driven out of turn"),
        }
    }
}

/// Where the setup stands.
#[derive(Debug, Clone, PartialEq, Eq)]
pub enum InitialSetup {
    /// Nothing was received yet.
    Idle,
    /// The transaction is being opened.
    Opening { org_title: String, username: String, password: String },
    /// The organization is being written.
    InsertingOrg { username: String, password: String },
    /// The user is being written.
    InsertingUser,
    /// The user is being made super-administrator.
    AssigningRole,
    /// The configuration is being marked as initialized.
    MarkingInitialized,
    /// The transaction is being committed.
    Committing,
    /// The outcome was decided.
    Done,
}

/// What the setup is told.
#[derive(Debug, Clone, PartialEq, Eq)]
pub enum InitialSetupEvent {
    /// The setup is to run with these initial values.
    Received { org_title: String, username: String, password: String },
    /// The transaction is open.
    Begun,
    /// The organization was written and has this id.
    OrgInserted(JustId),
    /// The user was written and has this id.
    UserInserted(JustId),
    /// The role was assigned.
    RoleAssigned,
    /// The configuration was marked.
    ConfigUpdated,
    /// The transaction was committed.
    Committed,
    /// The store call failed.
    Failed(StoreFailure),
}

/// What the setup asks of its caller.
#[derive(Debug, Clone, PartialEq, Eq)]
pub enum InitialSetupAction {
    /// Open a transaction.
    Begin,
    /// Write an organization with this title.
    InsertOrg { title: String },
    /// Write this user into this organization.
    InsertUser { username: String, password: String, org_id: String },
    /// Give the user this role.
    AssignRole { user_id: String, role: Role },
    /// Mark the configuration as initialized.
    MarkInitialized,
    /// Commit the transaction.
    Commit,
    /// The setup is complete.
    Finish,
    /// Roll back what the transaction holds and stop the process.
    Abort(SetupError),
}

/// Whether the setup ends at `post` by giving up with `error`.
pub open spec fn setup_aborts(post: InitialSetup, action: InitialSetupAction, error: SetupError) -> bool {
    post is Done && action == InitialSetupAction::Abort(error)
}

/// The step of the setup that failed when a store call failed in `pre`.
pub open spec fn failed_at(pre: InitialSetup) -> SetupError {
    match pre {
        InitialSetup::Opening { .. } => SetupError::Begin,
        InitialSetup::InsertingOrg { .. } => SetupError::Org,
        InitialSetup::InsertingUser => SetupError::User,
        InitialSetup::AssigningRole => SetupError::Role,
        InitialSetup::MarkingInitialized => SetupError::Config,
        InitialSetup::Committing => SetupError::Commit,
        _ => SetupError::OutOfTurn,
    }
}

/// The step that the setup takes from `pre` on `event`: whether it leads to
/// `post` and asks for `action`.
pub open spec fn initial_setup_step(
    pre: InitialSetup,
    event: InitialSetupEvent,
    post: InitialSetup,
    action: InitialSetupAction,
) -> bool {
    match (pre, event) {
        (InitialSetup::Idle, InitialSetupEvent::Received { org_title, username, password }) => {
            &&& action is Begin
            &&& post matches InitialSetup::Opening { org_title: title, username: name, password: word }
            &&& title@ == org_title@
            &&& name@ == username@
            &&& word@ == password@
        },
        (InitialSetup::Opening { org_title, username, password }, InitialSetupEvent::Begun) => {
            &&& post matches InitialSetup::InsertingOrg { username: name, password: word }
            &&& name@ == username@
            &&& word@ == password@
            &&& action matches InitialSetupAction::InsertOrg { title }
            &&& title@ == org_title@
        },
        (InitialSetup::InsertingOrg { username, password }, InitialSetupEvent::OrgInserted(row)) => {
            &&& post is InsertingUser
            &&& action matches InitialSetupAction::InsertUser {
                username: name,
                password: word,
                org_id,
            }
            &&& name@ == username@
            &&& word@ == password@
            &&& org_id@ == row.id@
        },
        (InitialSetup::InsertingUser, InitialSetupEvent::UserInserted(row)) => {
            &&& post is AssigningRole
            &&& action matches InitialSetupAction::AssignRole { user_id, role }
            &&& user_id@ == row.id@
            &&& role == Role::SuperAdmin
        },
        (InitialSetup::AssigningRole, InitialSetupEvent::RoleAssigned) => {
            post is MarkingInitialized && action is MarkInitialized
        },
        (InitialSetup::MarkingInitialized, InitialSetupEvent::ConfigUpdated) => {
            post is Committing && action is Commit
        },
        (InitialSetup::Committing, InitialSetupEvent::Committed) => {
            post is Done && action is Finish
        },
        (_, InitialSetupEvent::Failed(_)) => setup_aborts(post, action, failed_at(pre)),
        _ => setup_aborts(post, action, SetupError::OutOfTurn),
    }
}

/// One step of the initial setup.
///
/// `Commit` is asked for only once the organization, the user, the role and
/// the mark were written, and `Finish` only once the commit went through; a
/// failure at any step ends the setup with `Abort`.
pub fn initial_setup(state: InitialSetup, event: InitialSetupEvent) -> (step: (
    InitialSetup,
    InitialSetupAction,
))
    ensures
        initial_setup_step(state, event, step.0, step.1),
        step.1 is Commit <==> state is MarkingInitialized && event is ConfigUpdated,
        step.1 is Finish <==> state is Committing && event is Committed,
        event is Failed ==> step.1 is Abort,
{
    match (state, event) {
        (InitialSetup::Idle, InitialSetupEvent::Received { org_title, username, password }) => (
            InitialSetup::Opening { org_title, username, password },
            InitialSetupAction::Begin,
        ),
        (InitialSetup::Opening { org_title, username, password }, InitialSetupEvent::Begun) => (
            InitialSetup::InsertingOrg { username, password },
            InitialSetupAction::InsertOrg { title: org_title },
        ),
        (InitialSetup::InsertingOrg { username, password }, InitialSetupEvent::OrgInserted(row)) => (
            InitialSetup::InsertingUser,
            InitialSetupAction::InsertUser { username, password, org_id: row.id },
        ),
        (InitialSetup::InsertingUser, InitialSetupEvent::UserInserted(row)) => (
            InitialSetup::AssigningRole,
            InitialSetupAction::AssignRole { user_id: row.id, role: Role::SuperAdmin },
        ),
        (InitialSetup::AssigningRole, InitialSetupEvent::RoleAssigned) => (
            InitialSetup::MarkingInitialized,
            InitialSetupAction::MarkInitialized,
        ),
        (InitialSetup::MarkingInitialized, InitialSetupEvent::ConfigUpdated) => (
            InitialSetup::Committing,
            InitialSetupAction::Commit,
        ),
        (InitialSetup::Committing, InitialSetupEvent::Committed) => (
            InitialSetup::Done,
            InitialSetupAction::Finish,
        ),
        (state, InitialSetupEvent::Failed(_)) => {
            let error = match state {
                InitialSetup::Opening { .. } => SetupError::Begin,
                InitialSetup::InsertingOrg { .. } => SetupError::Org,
                InitialSetup::InsertingUser => SetupError::User,
                InitialSetup::AssigningRole => SetupError::Role,
                InitialSetup::MarkingInitialized => SetupError::Config,
                InitialSetup::Committing => SetupError::Commit,
                _ => SetupError::OutOfTurn,
            };
            (InitialSetup::Done, InitialSetupAction::Abort(error))
        },
        _ => (InitialSetup::Done, InitialSetupAction::Abort(SetupError::OutOfTurn)),
    }
}

/// Whether step `i` of a recorded run is a step of the setup.
pub open spec fn is_setup_step(
    states: Seq<InitialSetup>,
    events: Seq<InitialSetupEvent>,
    actions: Seq<InitialSetupAction>,
    i: int,
) -> bool {
    initial_setup_step(states[i], events[i], states[i + 1], actions[i])
}

/// Whether `states`, `events` and `actions` record a run of the setup from
/// its start.
pub open spec fn is_setup_run(
    states: Seq<InitialSetup>,
    events: Seq<InitialSetupEvent>,
    actions: Seq<InitialSetupAction>,
) -> bool {
    &&& states.len() == events.len() + 1
    &&& actions.len() == events.len()
    &&& states[0] is Idle
    &&& forall|i: int| 0 <= i < events.len() ==> #[trigger] is_setup_step(states, events, actions, i)
}

/// The number of events that lead to `state` where nothing failed.
pub open spec fn setup_stage(state: InitialSetup) -> int {
    match state {
        InitialSetup::Idle => 0,
        InitialSetup::Opening { .. } => 1,
        InitialSetup::InsertingOrg { .. } => 2,
        InitialSetup::InsertingUser => 3,
        InitialSetup::AssigningRole => 4,
        InitialSetup::MarkingInitialized => 5,
        InitialSetup::Committing => 6,
        InitialSetup::Done => 7,
    }
}

/// Whether `event` is the one that carries the setup on from the stage
/// `stage`.
pub open spec fn carries_setup_on(stage: int, event: InitialSetupEvent) -> bool {
    if stage == 0 {
        event is Received
    } else if stage == 1 {
        event is Begun
    } else if stage == 2 {
        event is OrgInserted
    } else if stage == 3 {
        event is UserInserted
    } else if stage == 4 {
        event is RoleAssigned
    } else if stage == 5 {
        event is ConfigUpdated
    } else {
        false
    }
}

/// A setup that is still under way after `n` events has taken each of them
/// in turn.
proof fn lemma_setup_in_turn(
    states: Seq<InitialSetup>,
    events: Seq<InitialSetupEvent>,
    actions: Seq<InitialSetupAction>,
    n: int,
)
    requires
        is_setup_run(states, events, actions),
        0 <= n <= events.len(),
        !(states[n] is Done),
    ensures
        setup_stage(states[n]) == n,
        forall|j: int| 0 <= j < n ==> carries_setup_on(j, #[trigger] events[j]),
    decreases n,
{
    if n > 0 {
        assert(is_setup_step(states, events, actions, n - 1));
        lemma_setup_in_turn(states, events, actions, n - 1);
    }
}

/// The setup is all or nothing: in every run, a commit is asked for only
/// after the organization, the user, the role and the mark were written,
/// with no failed store call before it.
pub proof fn law_setup_commits_only_a_whole_run(
    states: Seq<InitialSetup>,
    events: Seq<InitialSetupEvent>,
    actions: Seq<InitialSetupAction>,
    i: int,
)
    requires
        is_setup_run(states, events, actions),
        0 <= i < actions.len(),
        actions[i] is Commit,
    ensures
        i == 5,
        events[2] is OrgInserted,
        events[3] is UserInserted,
        events[4] is RoleAssigned,
        events[5] is ConfigUpdated,
        forall|j: int| 0 <= j <= i ==> !(#[trigger] events[j] is Failed),
{
    assert(is_setup_step(states, events, actions, i));
    assert(states[i] is MarkingInitialized);
    lemma_setup_in_turn(states, events, actions, i);
    assert(carries_setup_on(2, events[2]));
    assert(carries_setup_on(3, events[3]));
    assert(carries_setup_on(4, events[4]));
    assert forall|j: int| 0 <= j <= i implies !(#[trigger] events[j] is Failed) by {
        if j < i {
            assert(carries_setup_on(j, events[j]));
        }
    }
}

} // verus!
