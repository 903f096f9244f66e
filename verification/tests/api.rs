use clubhouse::api::{
    classify_failure, db_err_to_response, handle_unexpected_db_err, store_failure, str_equal,
    unexpected, Body, Reply, Status, StoreFailure,
};
use std::borrow::Cow;
use std::error::Error as StdError;
use std::fmt;

#[derive(Debug)]
struct Refusal {
    code: Option<&'static str>,
}

impl fmt::Display for Refusal {
    fn fmt(&self, f: &mut fmt::Formatter<'_>) -> fmt::Result {
        f.write_str("refused")
    }
}

impl StdError for Refusal {}

impl sqlx::error::DatabaseError for Refusal {
    fn message(&self) -> &str {
        "refused"
    }

    fn code(&self) -> Option<Cow<'_, str>> {
        self.code.map(Cow::Borrowed)
    }

    fn as_error(&self) -> &(dyn StdError + Send + Sync + 'static) {
        self
    }

    fn as_error_mut(&mut self) -> &mut (dyn StdError + Send + Sync + 'static) {
        self
    }

    fn into_error(self: Box<Self>) -> Box<dyn StdError + Send + Sync + 'static> {
        self
    }

    fn kind(&self) -> sqlx::error::ErrorKind {
        sqlx::error::ErrorKind::Other
    }
}

fn database_error(code: Option<&'static str>) -> sqlx::Error {
    sqlx::Error::Database(Box::new(Refusal { code }))
}

#[test]
fn status_codes_are_the_http_codes() {
    assert_eq!(Status::Success.code(), 200);
    assert_eq!(Status::Created.code(), 201);
    assert_eq!(Status::NoContent.code(), 204);
    assert_eq!(Status::Unauthorized.code(), 401);
    assert_eq!(Status::Forbidden.code(), 403);
    assert_eq!(Status::NotFound.code(), 404);
    assert_eq!(Status::InternalServerError.code(), 500);
}

#[test]
fn replies_are_built_from_their_parts() {
    assert_eq!(
        Reply::empty(Status::NoContent),
        Reply { status: Status::NoContent, set_cookie: None, body: Body::Empty }
    );
    assert_eq!(
        Reply::text(Status::NotFound, "gone"),
        Reply { status: Status::NotFound, set_cookie: None, body: Body::Text("gone".to_string()) }
    );
    assert_eq!(
        Reply::json(Status::Created, "id7"),
        Reply { status: Status::Created, set_cookie: None, body: Body::Json("id7".to_string()) }
    );
    assert_eq!(
        Reply::text(Status::Success, "u").with_cookie("c=1"),
        Reply {
            status: Status::Success,
            set_cookie: Some("c=1".to_string()),
            body: Body::Text("u".to_string())
        }
    );
}

#[test]
fn with_cookie_replaces_an_earlier_cookie() {
    let reply = Reply::empty(Status::Success).with_cookie("a=1").with_cookie("b=2");
    assert_eq!(reply.set_cookie, Some("b=2".to_string()));
}

#[test]
fn classification_reads_the_unique_violation_code() {
    assert_eq!(classify_failure(false, Some("23505")), StoreFailure::UniqueViolation);
    assert_eq!(classify_failure(false, Some("23503")), StoreFailure::Other);
    assert_eq!(classify_failure(false, Some("2350")), StoreFailure::Other);
    assert_eq!(classify_failure(false, Some("235050")), StoreFailure::Other);
    assert_eq!(classify_failure(false, Some("")), StoreFailure::Other);
    assert_eq!(classify_failure(false, None), StoreFailure::Other);
}

#[test]
fn classification_puts_the_missing_row_first() {
    assert_eq!(classify_failure(true, None), StoreFailure::RowNotFound);
    assert_eq!(classify_failure(true, Some("23505")), StoreFailure::RowNotFound);
}

#[test]
fn store_failure_of_a_missing_row() {
    assert_eq!(store_failure(&sqlx::Error::RowNotFound), StoreFailure::RowNotFound);
}

#[test]
fn store_failure_of_a_unique_violation() {
    assert_eq!(store_failure(&database_error(Some("23505"))), StoreFailure::UniqueViolation);
}

#[test]
fn store_failure_of_other_database_errors() {
    assert_eq!(store_failure(&database_error(Some("23503"))), StoreFailure::Other);
    assert_eq!(store_failure(&database_error(None)), StoreFailure::Other);
}

#[test]
fn store_failure_of_errors_without_code() {
    assert_eq!(store_failure(&sqlx::Error::PoolTimedOut), StoreFailure::Other);
    assert_eq!(store_failure(&sqlx::Error::Protocol("23505".to_string())), StoreFailure::Other);
}

#[test]
fn unexpected_store_errors_tell_nothing() {
    let answer = handle_unexpected_db_err(database_error(Some("23505")));
    assert_eq!(answer, (Status::InternalServerError, "Unexpected Error".to_string()));
    let answer = handle_unexpected_db_err(sqlx::Error::RowNotFound);
    assert_eq!(answer, (Status::InternalServerError, "Unexpected Error".to_string()));
}

#[test]
fn failures_in_handlers_become_replies() {
    assert_eq!(
        db_err_to_response(StoreFailure::RowNotFound),
        Reply::text(Status::NotFound, "Not found")
    );
    assert_eq!(
        db_err_to_response(StoreFailure::UniqueViolation),
        Reply::text(Status::InternalServerError, "Unexpected Error")
    );
    assert_eq!(db_err_to_response(StoreFailure::Other), unexpected());
    assert_eq!(unexpected().status.code(), 500);
}

#[test]
fn str_equal_compares_character_by_character() {
    assert!(str_equal("", ""));
    assert!(str_equal("23505", "23505"));
    assert!(!str_equal("23505", "23504"));
    assert!(!str_equal("abc", "ab"));
    assert!(!str_equal("ab", "abc"));
    assert!(str_equal("日本", "日本"));
    assert!(!str_equal("日本", "日木"));
}
