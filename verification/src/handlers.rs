//! What the two endpoints answer.
//!
//! `GET /health` answers without looking at the store. `GET /users` answers
//! from what the store did with the one query of the service. Both bodies
//! are JSON texts.

use vstd::prelude::*;
use vstd::string::*;
use crate::decimal::decimal;
use crate::json::{json_string, user_text, users_json, users_text};
use crate::store::{users_from_rows, user_of, users_of, ColumnView, Row};

verus! {

/// The address that the service listens on.
pub const LISTEN_ADDRESS: &'static str = "127.0.0.1:8080";

/// The path of the liveness endpoint; it answers `GET`.
pub const HEALTH_PATH: &'static str = "/health";

/// The path of the listing endpoint; it answers `GET`.
pub const USERS_PATH: &'static str = "/users";

/// The media type of every body that the service sends.
pub const CONTENT_TYPE: &'static str = "application/json";

/// The status of an answer that carries what was asked for.
pub const STATUS_OK: u16 = 200;

/// The status of an answer to a request that the service could not serve.
pub const STATUS_INTERNAL_SERVER_ERROR: u16 = 500;

/// The query of the listing endpoint.
pub const USERS_QUERY: &'static str = "SELECT id, username, email, full_name FROM users";

/// The body of the liveness answer.
pub const HEALTH_BODY: &'static str = "\"Server is running!\"";

/// The body of the answer to a listing whose query the store refused.
pub const QUERY_FAILED_BODY: &'static str = "\"Database query failed\"";

/// The body of the answer to a listing whose results could not be read.
pub const FETCH_FAILED_BODY: &'static str = "\"Failed to process query results\"";

/// An answer to a request: the HTTP status and the JSON text of the body.
#[derive(Debug, Clone, PartialEq, Eq)]
pub struct Response {
    pub status: u16,
    pub body: String,
}

/// The mathematical value of a [`Response`].
pub struct ResponseView {
    pub status: int,
    pub body: Seq<char>,
}

impl View for Response {
    type V = ResponseView;

    open spec fn view(&self) -> ResponseView {
        ResponseView { status: self.status as int, body: self.body@ }
    }
}

impl DeepView for Response {
    type V = ResponseView;

    open spec fn deep_view(&self) -> ResponseView {
        self@
    }
}

/// What the store did with the query of a listing.
#[derive(Debug, Clone, PartialEq, Eq)]
pub enum Outcome {
    /// The store did not execute the query.
    QueryFailed,
    /// The query ran, and reading its results failed.
    FetchFailed,
    /// The result sets of the query, each with its rows in order.
    Rows(Vec<Vec<Row>>),
}

/// The mathematical value of an [`Outcome`].
pub enum OutcomeView {
    QueryFailed,
    FetchFailed,
    Rows(Seq<Seq<Seq<ColumnView>>>),
}

impl View for Outcome {
    type V = OutcomeView;

    open spec fn view(&self) -> OutcomeView {
        match self {
            Outcome::QueryFailed => OutcomeView::QueryFailed,
            Outcome::FetchFailed => OutcomeView::FetchFailed,
            Outcome::Rows(sets) => OutcomeView::Rows(sets.deep_view()),
        }
    }
}

impl DeepView for Outcome {
    type V = OutcomeView;

    open spec fn deep_view(&self) -> OutcomeView {
        self@
    }
}

/// The liveness answer.
pub open spec fn health_response() -> ResponseView {
    ResponseView { status: 200, body: "\"Server is running!\""@ }
}

/// The answer to a listing, by what the store did: the records of the rows
/// as a JSON array with status 200, or status 500 with a fixed message that
/// tells which of the two steps failed and nothing else.
pub open spec fn listing_response(outcome: OutcomeView) -> ResponseView {
    match outcome {
        OutcomeView::QueryFailed => ResponseView {
            status: 500,
            body: "\"Database query failed\""@,
        },
        OutcomeView::FetchFailed => ResponseView {
            status: 500,
            body: "\"Failed to process query results\""@,
        },
        OutcomeView::Rows(sets) => ResponseView { status: 200, body: users_text(users_of(sets)) },
    }
}

/// Answers `GET /health`: status 200 and the JSON string
/// `"Server is running!"`, whatever the state of the store.
pub fn health_check() -> (response: Response)
    ensures
        response@ == health_response(),
{
    Response { status: STATUS_OK, body: String::from_str(HEALTH_BODY) }
}

/// Answers `GET /users` from what the store did with [`USERS_QUERY`].
///
/// Rows become records one for one and in order, and the body is their
/// JSON array. A failure of either step gives status 500 and a fixed
/// message.
pub fn get_users(outcome: &Outcome) -> (response: Response)
    ensures
        response@ == listing_response(outcome@),
{
    match outcome {
        Outcome::QueryFailed => Response {
            status: STATUS_INTERNAL_SERVER_ERROR,
            body: String::from_str(QUERY_FAILED_BODY),
        },
        Outcome::FetchFailed => Response {
            status: STATUS_INTERNAL_SERVER_ERROR,
            body: String::from_str(FETCH_FAILED_BODY),
        },
        Outcome::Rows(sets) => {
            let users = users_from_rows(sets);
            Response { status: STATUS_OK, body: users_json(&users) }
        },
    }
}

/// A listing that succeeds answers 200 with the JSON array of one record
/// for each row that the store returned, in the order in which it returned
/// them.
pub proof fn law_listing_follows_rows(sets: Seq<Seq<Seq<ColumnView>>>)
    ensures
        listing_response(OutcomeView::Rows(sets)).status == 200,
        listing_response(OutcomeView::Rows(sets)).body == users_text(users_of(sets)),
        users_of(sets).len() == sets.flatten().len(),
        forall|i: int|
            0 <= i < sets.flatten().len() ==> #[trigger] users_of(sets)[i] == user_of(
                sets.flatten()[i],
            ),
{
}

/// A listing that succeeds without a single row answers 200 with the body
/// `[]`.
pub proof fn law_empty_listing(sets: Seq<Seq<Seq<ColumnView>>>)
    requires
        sets.flatten().len() == 0,
    ensures
        listing_response(OutcomeView::Rows(sets)) == (ResponseView { status: 200, body: "[]"@ }),
{
    reveal_strlit("[");
    reveal_strlit("]");
    reveal_strlit("[]");
    assert(users_text(users_of(sets)) =~= "[]"@);
}

/// A listing that fails answers 500 with a text between double quotes
/// that depends on nothing but the step that failed:
/// `"Database query failed"` for the query,
/// `"Failed to process query results"` for the reading.
pub proof fn law_failed_listing(outcome: OutcomeView)
    requires
        !(outcome is Rows),
    ensures
        listing_response(outcome).status == 500,
        outcome is QueryFailed ==> listing_response(outcome).body == "\"Database query failed\""@,
        outcome is FetchFailed ==> listing_response(outcome).body
            == "\"Failed to process query results\""@,
        listing_response(outcome).body.len() >= 2,
        listing_response(outcome).body.first() == '"',
        listing_response(outcome).body.last() == '"',
{
    reveal_strlit("\"Database query failed\"");
    reveal_strlit("\"Failed to process query results\"");
}

/// The record of a row has neither of the two times, whatever the row
/// holds, and its JSON object ends with the two of them as `null`.
pub proof fn law_times_are_null(row: Seq<ColumnView>)
    ensures
        user_of(row).created_at is None,
        user_of(row).updated_at is None,
        user_text(user_of(row)) == "{\"id\":"@ + decimal(user_of(row).id) + ",\"username\":"@
            + json_string(user_of(row).username) + ",\"email\":"@ + json_string(
            user_of(row).email,
        ) + ",\"full_name\":"@ + json_string(user_of(row).full_name)
            + ",\"created_at\":null,\"updated_at\":null}"@,
{
    reveal_strlit(",\"created_at\":");
    reveal_strlit(",\"updated_at\":");
    reveal_strlit("null");
    reveal_strlit("}");
    reveal_strlit(",\"created_at\":null,\"updated_at\":null}");
    let head = "{\"id\":"@ + decimal(user_of(row).id) + ",\"username\":"@ + json_string(
        user_of(row).username,
    ) + ",\"email\":"@ + json_string(user_of(row).email) + ",\"full_name\":"@ + json_string(
        user_of(row).full_name,
    );
    assert(",\"created_at\":"@ + "null"@ + ",\"updated_at\":"@ + "null"@ + "}"@
        =~= ",\"created_at\":null,\"updated_at\":null}"@);
    assert(user_text(user_of(row)) =~= head + (",\"created_at\":"@ + "null"@ + ",\"updated_at\":"@
        + "null"@ + "}"@));
}

} // verus!
