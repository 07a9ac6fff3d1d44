//! The two requests of the service, each in two steps with the store
//! between them.
//!
//! The first step reads the request and composes the query, or refuses the
//! request before any store is asked. The caller runs the query, once. The
//! second step takes what the store gave and decides how the request ends.

use crate::filters::{extract_filters, extracted_filters, field_text, Filters};
use crate::ident::{identifier_of_text, parse_identifier};
use crate::key::{decoded_key, KeyView, NameGrade};
use crate::query::{compose, composed_query, lookup_query, lookup_query_of, QuerySpec};
use crate::response::{Outcome, OutcomeView, Status};
use crate::user::{views_of, User, UserView};
use vstd::prelude::*;

verus! {

/// Why a request fails.
#[derive(Debug, Clone, Copy, PartialEq, Eq, Structural)]
pub enum RequestError {
    /// The path segment of a search is no composite key.
    MalformedKey,
    /// A filter field of a search does not read as a value of its kind.
    MalformedFilter,
    /// The path segment of a lookup is no identifier.
    MalformedIdentifier,
    /// No record matches.
    NotFound,
    /// The store could not be reached or could not run the query.
    StoreFailure,
    /// No route matches the path of the request.
    RouteNotFound,
}

impl RequestError {
    /// The outcome that reports the failure. Nothing of a store failure is
    /// told but that the server failed.
    pub open spec fn outcome_of(self) -> OutcomeView {
        match self {
            RequestError::MalformedKey => OutcomeView::ClientError,
            RequestError::MalformedFilter => OutcomeView::ClientError,
            RequestError::MalformedIdentifier => OutcomeView::ClientError,
            RequestError::NotFound => OutcomeView::NotFound,
            RequestError::StoreFailure => OutcomeView::ServerError,
            RequestError::RouteNotFound => OutcomeView::NotFound,
        }
    }

    /// The status that reports the failure.
    pub open spec fn status_of(self) -> Status {
        match self {
            RequestError::MalformedKey => Status::BadRequest,
            RequestError::MalformedFilter => Status::BadRequest,
            RequestError::MalformedIdentifier => Status::BadRequest,
            RequestError::NotFound => Status::NotFound,
            RequestError::StoreFailure => Status::InternalServerError,
            RequestError::RouteNotFound => Status::NotFound,
        }
    }

    /// The outcome that reports the failure.
    pub fn outcome(&self) -> (outcome: Outcome)
        ensures
            outcome@ == self.outcome_of(),
    {
        match self {
            RequestError::MalformedKey => Outcome::ClientError,
            RequestError::MalformedFilter => Outcome::ClientError,
            RequestError::MalformedIdentifier => Outcome::ClientError,
            RequestError::NotFound => Outcome::NotFound,
            RequestError::StoreFailure => Outcome::ServerError,
            RequestError::RouteNotFound => Outcome::NotFound,
        }
    }

    /// The status that reports the failure.
    pub fn status(&self) -> (status: Status)
        ensures
            status == self.status_of(),
    {
        match self {
            RequestError::MalformedKey => Status::BadRequest,
            RequestError::MalformedFilter => Status::BadRequest,
            RequestError::MalformedIdentifier => Status::BadRequest,
            RequestError::NotFound => Status::NotFound,
            RequestError::StoreFailure => Status::InternalServerError,
            RequestError::RouteNotFound => Status::NotFound,
        }
    }
}

/// Why the store gave no records.
#[derive(Debug, Clone, Copy, PartialEq, Eq, Structural)]
pub enum StoreError {
    /// The store could not be reached.
    Connectivity,
    /// The store refused the query or its values.
    Rejected,
    /// The store did not answer in time.
    Timeout,
}

/// What the first step of a search makes of the path segment and the two
/// filter fields: the query, or the reason to refuse. The key is read
/// first, so a request with a malformed key and a malformed filter is
/// refused for its key.
pub open spec fn planned_search(
    token: Seq<char>,
    age: Option<Seq<char>>,
    active: Option<Seq<char>>,
) -> Result<(KeyView, Option<Filters>), RequestError> {
    match decoded_key(token) {
        None => Err(RequestError::MalformedKey),
        Some(key) => match extracted_filters(age, active) {
            Err(_) => Err(RequestError::MalformedFilter),
            Ok(filters) => Ok((key, filters)),
        },
    }
}

/// The first step of a search: reads the composite key from the path
/// segment and the filter from the two query string fields, and composes
/// the query. A malformed key or filter refuses the request, and no query is
/// composed.
pub fn users_query(name_grade: &str, age: Option<&str>, active: Option<&str>) -> (planned: Result<
    QuerySpec,
    RequestError,
>)
    ensures
        match planned_search(name_grade@, field_text(age), field_text(active)) {
            Ok((key, filters)) => planned is Ok && planned->Ok_0@ == composed_query(key, filters)
                && planned->Ok_0@.consistent(),
            Err(error) => planned == Err::<QuerySpec, RequestError>(error),
        },
{
    let key = match NameGrade::from_param(name_grade) {
        Ok(key) => key,
        Err(_) => {
            return Err(RequestError::MalformedKey);
        },
    };
    let filters = match extract_filters(age, active) {
        Ok(filters) => filters,
        Err(_) => {
            return Err(RequestError::MalformedFilter);
        },
    };
    Ok(compose(&key, &filters))
}

/// How a search ends, given what the store made of its query.
pub open spec fn search_outcome(found: Result<Seq<UserView>, StoreError>)
    -> OutcomeView {
    match found {
        Err(_) => OutcomeView::ServerError,
        Ok(users) => if users.len() == 0 {
            OutcomeView::NotFound
        } else {
            OutcomeView::Collection(users)
        },
    }
}

/// The view of what the store made of a search.
pub open spec fn found_views(found: Result<Vec<User>, StoreError>) -> Result<
    Seq<UserView>,
    StoreError,
> {
    match found {
        Ok(users) => Ok(views_of(users@)),
        Err(error) => Err(error),
    }
}

/// The second step of a search: a failure of the store, of whatever kind,
/// is a server error; no record is not found; one record or more are the
/// collection, in the order in which the store gave them.
pub fn users_outcome(found: Result<Vec<User>, StoreError>) -> (outcome: Outcome)
    ensures
        outcome@ == search_outcome(found_views(found)),
{
    match found {
        Err(_) => Outcome::ServerError,
        Ok(users) => {
            if users.len() == 0 {
                Outcome::NotFound
            } else {
                Outcome::Collection(users)
            }
        },
    }
}

/// The first step of a lookup: reads the identifier from the path segment
/// and composes the query. A text that is no identifier refuses the
/// request, and no query is composed.
pub fn user_query(uuid: &str) -> (planned: Result<QuerySpec, RequestError>)
    ensures
        match identifier_of_text(uuid@) {
            Some(id) => planned is Ok && planned->Ok_0@ == lookup_query_of(id)
                && planned->Ok_0@.consistent(),
            None => planned == Err::<QuerySpec, RequestError>(RequestError::MalformedIdentifier),
        },
{
    user_query_for(parse_identifier(uuid))
}

/// The first step of a lookup, once the path segment has been read: the
/// query for the identifier, or the refusal where the segment read as none.
pub fn user_query_for(id: Option<u128>) -> (planned: Result<QuerySpec, RequestError>)
    ensures
        match id {
            Some(id) => planned is Ok && planned->Ok_0@ == lookup_query_of(id)
                && planned->Ok_0@.consistent(),
            None => planned == Err::<QuerySpec, RequestError>(RequestError::MalformedIdentifier),
        },
{
    match id {
        Some(id) => Ok(lookup_query(id)),
        None => Err(RequestError::MalformedIdentifier),
    }
}

/// How a lookup ends, given what the store made of its query. The store
/// holds one record for an identifier at most; were it to give more, the
/// first is the record.
pub open spec fn lookup_outcome(found: Result<Seq<UserView>, StoreError>)
    -> OutcomeView {
    match found {
        Err(_) => OutcomeView::ServerError,
        Ok(users) => if users.len() == 0 {
            OutcomeView::NotFound
        } else {
            OutcomeView::SingleRecord(users[0])
        },
    }
}

/// The second step of a lookup: a failure of the store is a server error;
/// no record is not found; the record is the single record.
pub fn user_outcome(found: Result<Vec<User>, StoreError>) -> (outcome: Outcome)
    ensures
        outcome@ == lookup_outcome(found_views(found)),
{
    match found {
        Err(_) => Outcome::ServerError,
        Ok(users) => {
            let mut users = users;
            if users.len() == 0 {
                Outcome::NotFound
            } else {
                Outcome::SingleRecord(users.remove(0))
            }
        },
    }
}

} // verus!
