//! The vocabulary that every handler shares: response statuses, replies, and
//! the classification of store failures.

use vstd::prelude::*;
use vstd::string::StringExecFns;

verus! {

/// The HTTP statuses that the handlers answer with.
#[derive(Debug, Clone, Copy, PartialEq, Eq, Hash, Structural)]
pub enum Status {
    Success,
    Created,
    NoContent,
    Unauthorized,
    Forbidden,
    NotFound,
    InternalServerError,
}

impl Status {
    /// The numeric status code.
    pub open spec fn spec_code(self) -> int {
        match self {
            Status::Success => 200,
            Status::Created => 201,
            Status::NoContent => 204,
            Status::Unauthorized => 401,
            Status::Forbidden => 403,
            Status::NotFound => 404,
            Status::InternalServerError => 500,
        }
    }

    /// The numeric status code.
    pub fn code(self) -> (code: u16)
        ensures
            code == self.spec_code(),
    {
        match self {
            Status::Success => 200,
            Status::Created => 201,
            Status::NoContent => 204,
            Status::Unauthorized => 401,
            Status::Forbidden => 403,
            Status::NotFound => 404,
            Status::InternalServerError => 500,
        }
    }
}

/// What a response carries besides its status and headers.
#[derive(Debug, Clone, PartialEq, Eq)]
pub enum Body {
    /// Nothing.
    Empty,
    /// The text as it is.
    Text(String),
    /// The string encoded as one JSON string value.
    Json(String),
}

/// The mathematical value of a [`Body`].
pub enum BodyView {
    Empty,
    Text(Seq<char>),
    Json(Seq<char>),
}

impl View for Body {
    type V = BodyView;

    open spec fn view(&self) -> BodyView {
        match self {
            Body::Empty => BodyView::Empty,
            Body::Text(text) => BodyView::Text(text@),
            Body::Json(text) => BodyView::Json(text@),
        }
    }
}

/// A response in plain values: the status, the value of the `Set-Cookie`
/// header where one is set, and the body.
#[derive(Debug, Clone, PartialEq, Eq)]
pub struct Reply {
    pub status: Status,
    pub set_cookie: Option<String>,
    pub body: Body,
}

/// The mathematical value of a [`Reply`].
pub struct ReplyView {
    pub status: Status,
    pub set_cookie: Option<Seq<char>>,
    pub body: BodyView,
}

impl View for Reply {
    type V = ReplyView;

    open spec fn view(&self) -> ReplyView {
        ReplyView {
            status: self.status,
            set_cookie: match self.set_cookie {
                Some(cookie) => Some(cookie@),
                None => None,
            },
            body: self.body@,
        }
    }
}

impl Reply {
    /// A reply without cookie and body.
    pub fn empty(status: Status) -> (reply: Reply)
        ensures
            reply@ == (ReplyView { status, set_cookie: None, body: BodyView::Empty }),
    {
        Reply { status, set_cookie: None, body: Body::Empty }
    }

    /// A reply without cookie whose body is `text`.
    pub fn text(status: Status, text: &str) -> (reply: Reply)
        ensures
            reply@ == (ReplyView { status, set_cookie: None, body: BodyView::Text(text@) }),
    {
        Reply { status, set_cookie: None, body: Body::Text(String::from_str(text)) }
    }

    /// A reply without cookie whose body is `value` as a JSON string.
    pub fn json(status: Status, value: &str) -> (reply: Reply)
        ensures
            reply@ == (ReplyView { status, set_cookie: None, body: BodyView::Json(value@) }),
    {
        Reply { status, set_cookie: None, body: Body::Json(String::from_str(value)) }
    }

    /// The same reply with `Set-Cookie` set to `cookie`.
    pub fn with_cookie(self, cookie: &str) -> (reply: Reply)
        ensures
            reply@ == (ReplyView { set_cookie: Some(cookie@), ..self@ }),
    {
        Reply { status: self.status, set_cookie: Some(String::from_str(cookie)), body: self.body }
    }
}

/// What the handlers need to know of a failed store call.
#[derive(Debug, Clone, Copy, PartialEq, Eq, Hash, Structural)]
pub enum StoreFailure {
    /// A query that expects a row found none.
    RowNotFound,
    /// A uniqueness constraint refused the write.
    UniqueViolation,
    /// Anything else.
    Other,
}

/// The SQLSTATE code with which the store reports a uniqueness violation.
pub open spec fn unique_violation_code() -> Seq<char> {
    "23505"@
}

/// The failure that a store error stands for, given whether it is the
/// missing-row error and the SQLSTATE code it carries, if any.
pub open spec fn failure_of(row_not_found: bool, code: Option<Seq<char>>) -> StoreFailure {
    if row_not_found {
        StoreFailure::RowNotFound
    } else if code == Some(unique_violation_code()) {
        StoreFailure::UniqueViolation
    } else {
        StoreFailure::Other
    }
}

/// Classifies a store error from what was read off it.
pub fn classify_failure(row_not_found: bool, code: Option<&str>) -> (failure: StoreFailure)
    ensures
        failure == failure_of(
            row_not_found,
            match code {
                Some(code) => Some(code@),
                None => None,
            },
        ),
{
    if row_not_found {
        return StoreFailure::RowNotFound;
    }
    match code {
        Some(code) => {
            if str_equal(code, "23505") {
                StoreFailure::UniqueViolation
            } else {
                StoreFailure::Other
            }
        },
        None => StoreFailure::Other,
    }
}

/// Whether two string slices hold the same characters.
pub fn str_equal(left: &str, right: &str) -> (same: bool)
    ensures
        same == (left@ == right@),
{
    let n = left.unicode_len();
    if n != right.unicode_len() {
        return false;
    }
    let mut i: usize = 0;
    while i < n
        invariant
            n == left@.len(),
            n == right@.len(),
            i <= n,
            forall|k: int| 0 <= k < i ==> left@[k] == right@[k],
        decreases n - i,
    {
        if left.get_char(i) != right.get_char(i) {
            return false;
        }
        i += 1;
    }
    assert(left@ =~= right@);
    true
}

#[verifier::external_type_specification]
#[verifier::external_body]
pub struct ExSqlxError(sqlx::Error);

/// `sqlx::Error::as_database_error` followed by `DatabaseError::code`: the
/// SQLSTATE code of an error that the database returned, `None` for every
/// other error. Nothing is claimed of the code.
#[verifier::external_body]
fn sqlstate_code(err: &sqlx::Error) -> (code: Option<String>) {
    err.as_database_error().and_then(|db| db.code()).map(|code| code.into_owned())
}

/// Tells the variant `sqlx::Error::RowNotFound` from the others. Nothing is
/// claimed of the answer.
#[verifier::external_body]
fn is_row_not_found(err: &sqlx::Error) -> (missing: bool) {
    match err {
        sqlx::Error::RowNotFound => true,
        _ => false,
    }
}

/// Reads off a store error what the handlers decide on. Which failure comes
/// out is settled by [`classify_failure`] on what the error carries.
pub fn store_failure(err: &sqlx::Error) -> (failure: StoreFailure) {
    let missing = is_row_not_found(err);
    let code = sqlstate_code(err);
    match &code {
        Some(code) => classify_failure(missing, Some(code.as_str())),
        None => classify_failure(missing, None),
    }
}

/// The answer to a store failure that no handler expects: the client learns
/// nothing of the cause.
pub fn handle_unexpected_db_err(err: sqlx::Error) -> (answer: (Status, String))
    ensures
        answer.0 == Status::InternalServerError,
        answer.1@ == "Unexpected Error"@,
{
    (Status::InternalServerError, String::from_str("Unexpected Error"))
}

/// The reply to a failure that the client is told nothing about.
pub open spec fn unexpected_reply() -> ReplyView {
    ReplyView {
        status: Status::InternalServerError,
        set_cookie: None,
        body: BodyView::Text("Unexpected Error"@),
    }
}

/// The reply to a failure that the client is told nothing about.
pub fn unexpected() -> (reply: Reply)
    ensures
        reply@ == unexpected_reply(),
{
    Reply::text(Status::InternalServerError, "Unexpected Error")
}

/// The reply to a store failure inside a handler: a missing row is reported
/// as not found, everything else as an internal error without detail.
pub open spec fn failure_reply(failure: StoreFailure) -> ReplyView {
    match failure {
        StoreFailure::RowNotFound => ReplyView {
            status: Status::NotFound,
            set_cookie: None,
            body: BodyView::Text("Not found"@),
        },
        _ => unexpected_reply(),
    }
}

/// The reply to a store failure inside a handler.
pub fn db_err_to_response(failure: StoreFailure) -> (reply: Reply)
    ensures
        reply@ == failure_reply(failure),
{
    match failure {
        StoreFailure::RowNotFound => Reply::text(Status::NotFound, "Not found"),
        _ => unexpected(),
    }
}

} // verus!
