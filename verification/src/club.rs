//! Allocating the identifier of a new club.
//!
//! A club's id is a short random string of letters and digits, so two clubs
//! may draw the same one.
//! The store refuses the second with a uniqueness violation; the allocator
//! then waits a moment and tries another id, a bounded number of times.

use vstd::prelude::*;
use crate::api::StoreFailure;
use crate::session::is_alphanumeric;
use crate::session::is_alphanumeric_token;

verus! {

/// The number of characters of a club's id.
pub const ID_LEN: usize = 6;

/// The number of collisions after which the allocator gives up.
pub const MAX_RETRIES: usize = 5;

/// The milliseconds to wait before an insert that follows a collision.
pub const RETRY_BACKOFF_MS: u64 = 50;

/// A well-formed club id: `ID_LEN` ASCII letters and digits.
pub open spec fn is_club_id(text: Seq<char>) -> bool {
    is_alphanumeric_token(text, ID_LEN as nat)
}

/// Some well-formed club id: six times the letter `a`.
pub open spec fn some_club_id() -> Seq<char> {
    Seq::new(ID_LEN as nat, |i: int| 'a')
}

/// There are well-formed club ids.
pub proof fn lemma_club_ids_exist()
    ensures
        is_club_id(some_club_id()),
{
}

/// The number of characters that ids are drawn from.
pub const ID_ALPHABET_LEN: usize = 62;

/// The characters that ids are drawn from: the upper-case letters, the
/// lower-case letters and the digits, in this order.
pub fn id_alphabet() -> (alphabet: Vec<char>)
    ensures
        alphabet@.len() == ID_ALPHABET_LEN,
        forall|i: int| 0 <= i < alphabet@.len() ==> is_alphanumeric(#[trigger] alphabet@[i]),
        forall|i: int| 0 <= i < 26 ==> #[trigger] alphabet@[i] == (65 + i) as char,
        forall|i: int| 26 <= i < 52 ==> #[trigger] alphabet@[i] == (97 + i - 26) as char,
        forall|i: int| 52 <= i < 62 ==> #[trigger] alphabet@[i] == (48 + i - 52) as char,
{
    let mut alphabet: Vec<char> = Vec::new();
    let mut n: u8 = 0;
    while n < 26
        invariant
            n <= 26,
            alphabet@.len() == n,
            forall|i: int| 0 <= i < n ==> #[trigger] alphabet@[i] == (65 + i) as char,
        decreases 26 - n,
    {
        alphabet.push((65 + n) as char);
        n += 1;
    }
    n = 0;
    while n < 26
        invariant
            n <= 26,
            alphabet@.len() == 26 + n,
            forall|i: int| 0 <= i < 26 ==> #[trigger] alphabet@[i] == (65 + i) as char,
            forall|i: int| 26 <= i < 26 + n ==> #[trigger] alphabet@[i] == (97 + i - 26) as char,
        decreases 26 - n,
    {
        alphabet.push((97 + n) as char);
        n += 1;
    }
    n = 0;
    while n < 10
        invariant
            n <= 10,
            alphabet@.len() == 52 + n,
            forall|i: int| 0 <= i < 26 ==> #[trigger] alphabet@[i] == (65 + i) as char,
            forall|i: int| 26 <= i < 52 ==> #[trigger] alphabet@[i] == (97 + i - 26) as char,
            forall|i: int| 52 <= i < 52 + n ==> #[trigger] alphabet@[i] == (48 + i - 52) as char,
        decreases 10 - n,
    {
        alphabet.push((48 + n) as char);
        n += 1;
    }
    alphabet
}

/// `nanoid::format` with the crate's default generator: a string of `size`
/// characters, each one drawn from `alphabet`. Which ones is left open. The
/// alphabet must not be empty, for the call would not return, nor hold more
/// than 255 characters, for it would panic; it must be ASCII and `size`
/// positive, as the call counts bytes and returns at the first string of
/// `size` of them.
#[verifier::external_body]
fn random_text(alphabet: &Vec<char>, size: usize) -> (text: String)
    requires
        0 < alphabet@.len() <= 255,
        forall|i: int| 0 <= i < alphabet@.len() ==> (#[trigger] alphabet@[i] as u32) < 128,
        0 < size <= usize::MAX / 8,
    ensures
        text@.len() == size,
        forall|i: int| 0 <= i < text@.len() ==> alphabet@.contains(#[trigger] text@[i]),
{
    nanoid::format(nanoid::rngs::default, alphabet.as_slice(), size)
}

/// A fresh candidate for a club's id.
pub fn new_club_id() -> (id: String)
    ensures
        is_club_id(id@),
{
    let alphabet = id_alphabet();
    let id = random_text(&alphabet, ID_LEN);
    proof {
        assert forall|i: int| 0 <= i < id@.len() implies is_alphanumeric(#[trigger] id@[i]) by {
            let c = id@[i];
            assert(alphabet@.contains(c));
            let k = choose|k: int| 0 <= k < alphabet@.len() && alphabet@[k] == c;
            assert(is_alphanumeric(alphabet@[k]));
        }
    }
    id
}

/// Why no id was allocated.
#[derive(Debug, Clone, Copy, PartialEq, Eq, Hash, Structural)]
pub enum AllocationError {
    /// Every attempt collided with an id in use.
    ExhaustedRetries,
    /// The store failed otherwise; no further attempt was made.
    Store(StoreFailure),
    /// The allocator was told something it did not wait for.
    OutOfTurn,
}

/// Where the creation of a club stands.
#[derive(Debug, Clone, PartialEq, Eq)]
pub enum CreateClub {
    /// Nothing was received yet.
    Idle,
    /// An insert is under way; `retries` collisions came before it.
    Inserting { title: String, retries: usize },
    /// The outcome was decided.
    Done,
}

/// What the creation of a club is told.
#[derive(Debug, Clone, PartialEq, Eq)]
pub enum CreateClubEvent {
    /// A club with this title is to be created.
    Received { title: String },
    /// The insert went through and returned this id.
    Inserted(String),
    /// The insert failed.
    Failed(StoreFailure),
}

/// What the creation of a club asks of its caller.
#[derive(Debug, Clone, PartialEq, Eq)]
pub enum CreateClubAction {
    /// Wait `delay_ms` milliseconds, then insert the club under `id`.
    Insert { id: String, title: String, delay_ms: u64 },
    /// The club exists under this id.
    Created(String),
    /// No club was created.
    GiveUp(AllocationError),
}

/// The number of collisions to count after one more, where another attempt
/// is still due.
pub open spec fn retries_after_collision(retries: int) -> Option<int> {
    if retries + 1 >= MAX_RETRIES {
        None
    } else {
        Some(retries + 1)
    }
}

/// Counts one more collision: the new count where another attempt is due,
/// `None` where the retries are exhausted.
pub fn count_collision(retries: usize) -> (counted: Option<usize>)
    ensures
        retries_after_collision(retries as int) == match counted {
            Some(count) => Some(count as int),
            None => None,
        },
{
    if retries >= MAX_RETRIES - 1 {
        None
    } else {
        Some(retries + 1)
    }
}

/// Whether the allocator ends at `post` by giving up with `error`.
pub open spec fn gives_up(post: CreateClub, action: CreateClubAction, error: AllocationError) -> bool {
    post is Done && action == CreateClubAction::GiveUp(error)
}

/// Whether the allocator goes on at `post` by inserting `candidate` for the
/// club `title` after `delay_ms`, with `retries` collisions behind it.
pub open spec fn tries(
    post: CreateClub,
    action: CreateClubAction,
    candidate: Seq<char>,
    title: Seq<char>,
    retries: int,
    delay_ms: int,
) -> bool {
    &&& post matches CreateClub::Inserting { title: kept, retries: count }
    &&& kept@ == title
    &&& count == retries
    &&& action matches CreateClubAction::Insert { id, title: named, delay_ms: delay }
    &&& id@ == candidate
    &&& named@ == title
    &&& delay == delay_ms
}

/// The step that the allocator takes from `pre` on `event`, where
/// `candidate` is the id drawn for this step: whether it leads to `post` and
/// asks for `action`.
pub open spec fn create_club_step(
    pre: CreateClub,
    event: CreateClubEvent,
    candidate: Seq<char>,
    post: CreateClub,
    action: CreateClubAction,
) -> bool {
    match (pre, event) {
        (CreateClub::Idle, CreateClubEvent::Received { title }) => tries(
            post,
            action,
            candidate,
            title@,
            0,
            0,
        ),
        (CreateClub::Inserting { .. }, CreateClubEvent::Inserted(id)) => {
            &&& post is Done
            &&& action matches CreateClubAction::Created(made)
            &&& made@ == id@
        },
        (
            CreateClub::Inserting { title, retries },
            CreateClubEvent::Failed(StoreFailure::UniqueViolation),
        ) => {
            match retries_after_collision(retries as int) {
                None => gives_up(post, action, AllocationError::ExhaustedRetries),
                Some(counted) => tries(
                    post,
                    action,
                    candidate,
                    title@,
                    counted,
                    RETRY_BACKOFF_MS as int,
                ),
            }
        },
        (CreateClub::Inserting { .. }, CreateClubEvent::Failed(failure)) => gives_up(
            post,
            action,
            AllocationError::Store(failure),
        ),
        _ => gives_up(post, action, AllocationError::OutOfTurn),
    }
}

/// One step of the allocator with the candidate given.
pub fn create_club_with(state: CreateClub, event: CreateClubEvent, candidate: String) -> (step: (
    CreateClub,
    CreateClubAction,
))
    ensures
        create_club_step(state, event, candidate@, step.0, step.1),
{
    match (state, event) {
        (CreateClub::Idle, CreateClubEvent::Received { title }) => (
            CreateClub::Inserting { title: title.clone(), retries: 0 },
            CreateClubAction::Insert { id: candidate, title, delay_ms: 0 },
        ),
        (CreateClub::Inserting { .. }, CreateClubEvent::Inserted(id)) => (
            CreateClub::Done,
            CreateClubAction::Created(id),
        ),
        (
            CreateClub::Inserting { title, retries },
            CreateClubEvent::Failed(StoreFailure::UniqueViolation),
        ) => {
            match count_collision(retries) {
                None => (
                    CreateClub::Done,
                    CreateClubAction::GiveUp(AllocationError::ExhaustedRetries),
                ),
                Some(counted) => (
                    CreateClub::Inserting { title: title.clone(), retries: counted },
                    CreateClubAction::Insert { id: candidate, title, delay_ms: RETRY_BACKOFF_MS },
                ),
            }
        },
        (CreateClub::Inserting { .. }, CreateClubEvent::Failed(failure)) => (
            CreateClub::Done,
            CreateClubAction::GiveUp(AllocationError::Store(failure)),
        ),
        _ => (CreateClub::Done, CreateClubAction::GiveUp(AllocationError::OutOfTurn)),
    }
}

/// One step of the allocator. Where the step asks for an insert, its id is
/// drawn afresh; an allocator that is done draws none.
///
/// A collision is answered by another insert, after a pause, until the
/// collisions number `MAX_RETRIES`; then, and on any other failure at once,
/// the allocator gives up.
pub fn create_club(state: CreateClub, event: CreateClubEvent) -> (step: (
    CreateClub,
    CreateClubAction,
))
    ensures
        exists|candidate: Seq<char>|
            is_club_id(candidate) && #[trigger] create_club_step(
                state,
                event,
                candidate,
                step.0,
                step.1,
            ),
{
    let draws = match state {
        CreateClub::Idle => true,
        CreateClub::Inserting { .. } => true,
        CreateClub::Done => false,
    };
    if draws {
        let candidate = new_club_id();
        let ghost drawn = candidate@;
        let step = create_club_with(state, event, candidate);
        assert(create_club_step(state, event, drawn, step.0, step.1));
        step
    } else {
        let step = create_club_with(state, event, String::new());
        proof {
            lemma_club_ids_exist();
            assert(create_club_step(state, event, some_club_id(), step.0, step.1));
        }
        step
    }
}

/// Whether step `i` of a recorded run is a step of the allocator with some
/// candidate.
pub open spec fn is_run_step(
    states: Seq<CreateClub>,
    events: Seq<CreateClubEvent>,
    actions: Seq<CreateClubAction>,
    i: int,
) -> bool {
    exists|candidate: Seq<char>| #[trigger]
        create_club_step(states[i], events[i], candidate, states[i + 1], actions[i])
}

/// Whether `states`, `events` and `actions` record a run of the allocator
/// from its start: each event leads from one state to the next and brings
/// the action recorded for it.
pub open spec fn is_allocation_run(
    states: Seq<CreateClub>,
    events: Seq<CreateClubEvent>,
    actions: Seq<CreateClubAction>,
) -> bool {
    &&& states.len() == events.len() + 1
    &&& actions.len() == events.len()
    &&& states[0] is Idle
    &&& forall|i: int| 0 <= i < events.len() ==> #[trigger] is_run_step(states, events, actions, i)
}

/// Whether a run starts with a request that is followed by `n` collisions.
pub open spec fn starts_with_collisions(events: Seq<CreateClubEvent>, n: int) -> bool {
    &&& events.len() > n
    &&& events[0] is Received
    &&& forall|i: int|
        1 <= i <= n ==> #[trigger] events[i] == CreateClubEvent::Failed(
            StoreFailure::UniqueViolation,
        )
}

/// After a request and `n` collisions, fewer than `MAX_RETRIES`, the
/// allocator is inserting with `n` collisions counted, and each of them was
/// answered by an insert after the pause.
proof fn lemma_collisions_are_counted(
    states: Seq<CreateClub>,
    events: Seq<CreateClubEvent>,
    actions: Seq<CreateClubAction>,
    n: int,
)
    requires
        is_allocation_run(states, events, actions),
        0 <= n < MAX_RETRIES,
        starts_with_collisions(events, n),
    ensures
        states[n + 1] matches CreateClub::Inserting { retries, .. } && retries == n,
        actions[n] matches CreateClubAction::Insert { delay_ms, .. } && delay_ms == (if n == 0 {
            0
        } else {
            RETRY_BACKOFF_MS
        }),
    decreases n,
{
    assert(is_run_step(states, events, actions, n));
    if n > 0 {
        lemma_collisions_are_counted(states, events, actions, n - 1);
        assert(events[n] == CreateClubEvent::Failed(StoreFailure::UniqueViolation));
    }
}

/// The allocator gives up with `ExhaustedRetries` at the collision that makes
/// `MAX_RETRIES` in a row, and not before: each earlier one is answered by
/// another insert.
pub proof fn law_collisions_exhaust_retries(
    states: Seq<CreateClub>,
    events: Seq<CreateClubEvent>,
    actions: Seq<CreateClubAction>,
)
    requires
        is_allocation_run(states, events, actions),
        starts_with_collisions(events, MAX_RETRIES as int),
    ensures
        forall|i: int| 0 <= i < MAX_RETRIES ==> #[trigger] actions[i] is Insert,
        actions[MAX_RETRIES as int] == CreateClubAction::GiveUp(AllocationError::ExhaustedRetries),
{
    assert forall|i: int| 0 <= i < MAX_RETRIES implies #[trigger] actions[i] is Insert by {
        lemma_collisions_are_counted(states, events, actions, i);
    }
    lemma_collisions_are_counted(states, events, actions, MAX_RETRIES - 1);
    assert(is_run_step(states, events, actions, MAX_RETRIES as int));
    assert(events[MAX_RETRIES as int] == CreateClubEvent::Failed(StoreFailure::UniqueViolation));
}

/// After fewer than `MAX_RETRIES` collisions the allocator is still trying:
/// an insert that goes through then yields the id that the store returned.
pub proof fn law_fewer_collisions_allocate(
    states: Seq<CreateClub>,
    events: Seq<CreateClubEvent>,
    actions: Seq<CreateClubAction>,
    collisions: int,
    id: String,
)
    requires
        is_allocation_run(states, events, actions),
        0 <= collisions < MAX_RETRIES,
        starts_with_collisions(events, collisions),
        events.len() > collisions + 1,
        events[collisions + 1] == CreateClubEvent::Inserted(id),
    ensures
        forall|i: int| 0 <= i <= collisions ==> #[trigger] actions[i] is Insert,
        actions[collisions + 1] matches CreateClubAction::Created(made) && made@ == id@,
{
    assert forall|i: int| 0 <= i <= collisions implies #[trigger] actions[i] is Insert by {
        lemma_collisions_are_counted(states, events, actions, i);
    }
    lemma_collisions_are_counted(states, events, actions, collisions);
    assert(is_run_step(states, events, actions, collisions + 1));
}

/// Where an insert that is retried on collisions stands.
#[derive(Debug, Clone, PartialEq, Eq)]
pub enum RetryInsert {
    /// Nothing was received yet.
    Idle,
    /// An insert is under way; `retries` collisions came before it.
    Inserting { title: String, retries: usize },
    /// The outcome was decided.
    Done,
}

/// What an insert that is retried on collisions is told.
#[derive(Debug, Clone, PartialEq, Eq)]
pub enum RetryInsertEvent {
    /// A row with this title is to be inserted.
    Received { title: String },
    /// The insert went through.
    Inserted,
    /// The insert failed.
    Failed(StoreFailure),
}

/// What an insert that is retried on collisions asks of its caller.
#[derive(Debug, Clone, PartialEq, Eq)]
pub enum RetryInsertAction {
    /// Insert a row with this title.
    Insert { title: String },
    /// The row exists.
    Finish,
    /// No row was inserted.
    GiveUp(AllocationError),
}

/// Whether the insert goes on at `post` with another attempt for `title`,
/// with `retries` collisions behind it.
pub open spec fn retries_insert(
    post: RetryInsert,
    action: RetryInsertAction,
    title: Seq<char>,
    retries: int,
) -> bool {
    &&& post matches RetryInsert::Inserting { title: kept, retries: count }
    &&& kept@ == title
    &&& count == retries
    &&& action matches RetryInsertAction::Insert { title: named }
    &&& named@ == title
}

/// The step that an insert that is retried on collisions takes from `pre`
/// on `event`: whether it leads to `post` and asks for `action`.
pub open spec fn retry_insert_step(
    pre: RetryInsert,
    event: RetryInsertEvent,
    post: RetryInsert,
    action: RetryInsertAction,
) -> bool {
    match (pre, event) {
        (RetryInsert::Idle, RetryInsertEvent::Received { title }) => retries_insert(
            post,
            action,
            title@,
            0,
        ),
        (RetryInsert::Inserting { .. }, RetryInsertEvent::Inserted) => {
            post is Done && action is Finish
        },
        (
            RetryInsert::Inserting { title, retries },
            RetryInsertEvent::Failed(StoreFailure::UniqueViolation),
        ) => {
            match retries_after_collision(retries as int) {
                None => post is Done && action == RetryInsertAction::GiveUp(
                    AllocationError::ExhaustedRetries,
                ),
                Some(counted) => retries_insert(post, action, title@, counted),
            }
        },
        (RetryInsert::Inserting { .. }, RetryInsertEvent::Failed(failure)) => {
            post is Done && action == RetryInsertAction::GiveUp(AllocationError::Store(failure))
        },
        _ => post is Done && action == RetryInsertAction::GiveUp(AllocationError::OutOfTurn),
    }
}

/// One step of an insert that is retried on collisions: the same row is
/// tried again at once, until the collisions number `MAX_RETRIES`; any other
/// failure ends it at once.
pub fn retry_insert(state: RetryInsert, event: RetryInsertEvent) -> (step: (
    RetryInsert,
    RetryInsertAction,
))
    ensures
        retry_insert_step(state, event, step.0, step.1),
{
    match (state, event) {
        (RetryInsert::Idle, RetryInsertEvent::Received { title }) => (
            RetryInsert::Inserting { title: title.clone(), retries: 0 },
            RetryInsertAction::Insert { title },
        ),
        (RetryInsert::Inserting { .. }, RetryInsertEvent::Inserted) => (
            RetryInsert::Done,
            RetryInsertAction::Finish,
        ),
        (
            RetryInsert::Inserting { title, retries },
            RetryInsertEvent::Failed(StoreFailure::UniqueViolation),
        ) => {
            match count_collision(retries) {
                None => (
                    RetryInsert::Done,
                    RetryInsertAction::GiveUp(AllocationError::ExhaustedRetries),
                ),
                Some(counted) => (
                    RetryInsert::Inserting { title: title.clone(), retries: counted },
                    RetryInsertAction::Insert { title },
                ),
            }
        },
        (RetryInsert::Inserting { .. }, RetryInsertEvent::Failed(failure)) => (
            RetryInsert::Done,
            RetryInsertAction::GiveUp(AllocationError::Store(failure)),
        ),
        _ => (RetryInsert::Done, RetryInsertAction::GiveUp(AllocationError::OutOfTurn)),
    }
}

} // verus!
