//! Responses: a status, headers and a body, and how each outcome of a
//! request is rendered into one.
//!
//! Every response carries the two fixed headers, after the header of its
//! own path where it has one.

use crate::ident::{identifier_text, write_identifier};
use crate::text::occurs_in;
use crate::user::{render_users, user_text, users_text, views_of, User, UserView};
use vstd::prelude::*;

verus! {

/// The status of a response.
#[derive(Debug, Clone, Copy, PartialEq, Eq, Structural)]
pub enum Status {
    Success,
    BadRequest,
    NotFound,
    InternalServerError,
}

impl Status {
    /// The number of the status.
    pub open spec fn code_of(self) -> u16 {
        match self {
            Status::Success => 200,
            Status::BadRequest => 400,
            Status::NotFound => 404,
            Status::InternalServerError => 500,
        }
    }

    /// The number of the status.
    pub fn code(&self) -> (code: u16)
        ensures
            code == self.code_of(),
    {
        match self {
            Status::Success => 200,
            Status::BadRequest => 400,
            Status::NotFound => 404,
            Status::InternalServerError => 500,
        }
    }

    /// Whether the status reports success.
    pub open spec fn is_success(self) -> bool {
        self == Status::Success
    }
}

/// One header of a response.
#[derive(Debug)]
pub struct Header {
    pub name: String,
    pub value: String,
}

/// What a header is, as plain values.
pub struct HeaderView {
    pub name: Seq<char>,
    pub value: Seq<char>,
}

impl View for Header {
    type V = HeaderView;

    open spec fn view(&self) -> HeaderView {
        HeaderView { name: self.name@, value: self.value@ }
    }
}

impl Header {
    /// The header with the given name and value.
    pub fn new(name: &str, value: &str) -> (header: Header)
        ensures
            header@ == (HeaderView { name: name@, value: value@ }),
    {
        Header { name: String::from_str(name), value: String::from_str(value) }
    }
}

/// A response.
#[derive(Debug)]
pub struct Response {
    pub status: Status,
    pub headers: Vec<Header>,
    pub body: String,
}

/// What a response is, as plain values.
pub struct ResponseView {
    pub status: Status,
    pub headers: Seq<HeaderView>,
    pub body: Seq<char>,
}

impl View for Response {
    type V = ResponseView;

    open spec fn view(&self) -> ResponseView {
        ResponseView {
            status: self.status,
            headers: self.headers@.map_values(|h: Header| h@),
            body: self.body@,
        }
    }
}

/// The header that marks the content as plain text.
pub open spec fn content_type_header() -> HeaderView {
    HeaderView { name: "Content-Type"@, value: "text/plain; charset=utf-8"@ }
}

/// The static marker header.
pub open spec fn custom_header() -> HeaderView {
    HeaderView { name: "X-CUSTOM-HEADER"@, value: "CUSTOM"@ }
}

/// The two headers that every response carries.
pub open spec fn fixed_headers() -> Seq<HeaderView> {
    seq![content_type_header(), custom_header()]
}

/// The header that carries the identifier of the record found.
pub open spec fn user_id_header(id: u128) -> HeaderView {
    HeaderView { name: "X-USER-ID"@, value: identifier_text(id) }
}

/// The header that tags the body as a collection of users.
pub open spec fn collection_header() -> HeaderView {
    HeaderView { name: "X-CUSTOM-ID"@, value: "USERS"@ }
}

/// Whether `headers` holds `header`.
pub open spec fn carries(headers: Seq<HeaderView>, header: HeaderView) -> bool {
    exists|i: int| 0 <= i < headers.len() && headers[i] == header
}

/// The response that carries the fixed headers and nothing else: the base
/// that every other response is built on.
pub open spec fn base_response() -> ResponseView {
    ResponseView { status: Status::Success, headers: fixed_headers(), body: Seq::empty() }
}

/// The response with a status, the fixed headers and no body.
pub open spec fn bare_response(status: Status) -> ResponseView {
    ResponseView { status, headers: fixed_headers(), body: Seq::empty() }
}

/// The response that carries one record, given the text of its identifier
/// and the text of the record.
pub open spec fn found_response(id: Seq<char>, record: Seq<char>) -> ResponseView {
    ResponseView {
        status: Status::Success,
        headers: seq![HeaderView { name: "X-USER-ID"@, value: id }] + fixed_headers(),
        body: "Found user: "@ + record,
    }
}

/// The response that carries one record.
pub open spec fn single_record_response(user: UserView) -> ResponseView {
    found_response(identifier_text(user.id), user_text(user))
}

/// The response that carries the records of a search: a success where there
/// is at least one, not found where there is none.
pub open spec fn collection_response(users: Seq<UserView>) -> ResponseView {
    if users.len() == 0 {
        bare_response(Status::NotFound)
    } else {
        ResponseView {
            status: Status::Success,
            headers: seq![collection_header()] + fixed_headers(),
            body: users_text(users),
        }
    }
}

/// How a request ended.
#[derive(Debug)]
pub enum Outcome {
    /// The lookup found its record.
    SingleRecord(User),
    /// The search ran and found these records.
    Collection(Vec<User>),
    /// No record matches.
    NotFound,
    /// The request is malformed.
    ClientError,
    /// The store failed.
    ServerError,
}

/// What an outcome is, as plain values.
pub enum OutcomeView {
    SingleRecord(UserView),
    Collection(Seq<UserView>),
    NotFound,
    ClientError,
    ServerError,
}

impl View for Outcome {
    type V = OutcomeView;

    open spec fn view(&self) -> OutcomeView {
        match self {
            Outcome::SingleRecord(user) => OutcomeView::SingleRecord(user@),
            Outcome::Collection(users) => OutcomeView::Collection(views_of(users@)),
            Outcome::NotFound => OutcomeView::NotFound,
            Outcome::ClientError => OutcomeView::ClientError,
            Outcome::ServerError => OutcomeView::ServerError,
        }
    }
}

/// The response of each outcome.
pub open spec fn rendered(outcome: OutcomeView) -> ResponseView {
    match outcome {
        OutcomeView::SingleRecord(user) => single_record_response(user),
        OutcomeView::Collection(users) => collection_response(users),
        OutcomeView::NotFound => bare_response(Status::NotFound),
        OutcomeView::ClientError => bare_response(Status::BadRequest),
        OutcomeView::ServerError => bare_response(Status::InternalServerError),
    }
}

/// Every response ends with the two fixed headers, whatever the outcome,
/// and a success carries the header of its path before them.
pub proof fn lemma_fixed_headers_carried(outcome: OutcomeView)
    ensures
        carries(rendered(outcome).headers, content_type_header()),
        carries(rendered(outcome).headers, custom_header()),
        rendered(outcome).headers.len() >= 2,
        rendered(outcome).headers.subrange(
            rendered(outcome).headers.len() - 2,
            rendered(outcome).headers.len() as int,
        ) == fixed_headers(),
        rendered(outcome).status.is_success() ==> rendered(outcome).headers.len() == 3,
        outcome matches OutcomeView::SingleRecord(user) ==> rendered(outcome).status.is_success()
            && rendered(outcome).headers[0] == user_id_header(user.id),
        outcome matches OutcomeView::Collection(users) ==> (rendered(outcome).status.is_success()
            <==> users.len() > 0),
        outcome matches OutcomeView::Collection(users) ==> users.len() > 0 ==> rendered(
            outcome,
        ).headers[0] == collection_header(),
{
    let headers = rendered(outcome).headers;
    let n = headers.len() as int;
    assert(headers.subrange(n - 2, n) =~= fixed_headers());
    assert(headers[n - 2] == content_type_header());
    assert(headers[n - 1] == custom_header());
}

/// The response to a lookup that found its record names the identifier of
/// that record, in its canonical text, both in its body and in the header of
/// its path.
pub proof fn lemma_single_record_names_identifier(user: UserView)
    ensures
        occurs_in(identifier_text(user.id), rendered(OutcomeView::SingleRecord(user)).body),
        carries(
            rendered(OutcomeView::SingleRecord(user)).headers,
            HeaderView { name: "X-USER-ID"@, value: identifier_text(user.id) },
        ),
        rendered(OutcomeView::SingleRecord(user)).status == Status::Success,
{
    let response = rendered(OutcomeView::SingleRecord(user));
    let id = identifier_text(user.id);
    let before = "Found user: "@ + "User { id: "@;
    let at = before.len() as int;
    assert(response.body.subrange(at, at + id.len()) =~= id);
    assert(response.headers[0] == user_id_header(user.id));
}

/// The two fixed headers.
fn fixed_header_list() -> (headers: Vec<Header>)
    ensures
        headers@.map_values(|h: Header| h@) == fixed_headers(),
{
    let mut headers: Vec<Header> = Vec::new();
    headers.push(Header::new("Content-Type", "text/plain; charset=utf-8"));
    headers.push(Header::new("X-CUSTOM-HEADER", "CUSTOM"));
    assert(headers@.map_values(|h: Header| h@) =~= fixed_headers());
    headers
}

/// The header of a path, then the two fixed headers.
fn path_header_list(first: Header) -> (headers: Vec<Header>)
    ensures
        headers@.map_values(|h: Header| h@) == seq![first@] + fixed_headers(),
{
    let mut headers: Vec<Header> = Vec::new();
    headers.push(first);
    headers.push(Header::new("Content-Type", "text/plain; charset=utf-8"));
    headers.push(Header::new("X-CUSTOM-HEADER", "CUSTOM"));
    assert(headers@.map_values(|h: Header| h@) =~= seq![first@] + fixed_headers());
    headers
}

/// The response that carries the fixed headers and nothing else.
pub fn default_response() -> (response: Response)
    ensures
        response@ == base_response(),
{
    Response { status: Status::Success, headers: fixed_header_list(), body: String::new() }
}

/// The response with a status, the fixed headers and no body.
pub fn status_response(status: Status) -> (response: Response)
    ensures
        response@ == bare_response(status),
{
    Response { status, headers: fixed_header_list(), body: String::new() }
}

/// The response that carries one record, from the text of its identifier
/// and the text of the record.
pub fn respond_found(id: &str, record: &str) -> (response: Response)
    ensures
        response@ == found_response(id@, record@),
{
    let mut body = String::from_str("Found user: ");
    body.append(record);
    let headers = path_header_list(Header::new("X-USER-ID", id));
    Response { status: Status::Success, headers, body }
}

/// Renders the record that a lookup found.
pub fn render_user(user: &User) -> (response: Response)
    ensures
        response@ == single_record_response(user@),
{
    let id = write_identifier(user.id);
    let record = user.render();
    respond_found(id.as_str(), record.as_str())
}

/// Renders the records that a search found.
pub fn render_collection(users: &Vec<User>) -> (response: Response)
    ensures
        response@ == collection_response(views_of(users@)),
{
    if users.len() == 0 {
        return status_response(Status::NotFound);
    }
    let body = render_users(users);
    let headers = path_header_list(Header::new("X-CUSTOM-ID", "USERS"));
    Response { status: Status::Success, headers, body }
}

/// Renders the outcome of a request.
pub fn render(outcome: &Outcome) -> (response: Response)
    ensures
        response@ == rendered(outcome@),
{
    match outcome {
        Outcome::SingleRecord(user) => render_user(user),
        Outcome::Collection(users) => render_collection(users),
        Outcome::NotFound => status_response(Status::NotFound),
        Outcome::ClientError => status_response(Status::BadRequest),
        Outcome::ServerError => status_response(Status::InternalServerError),
    }
}

/// The part of the not-found page before the path.
pub open spec fn page_head() -> Seq<char> {
    "<!DOCTYPE html>\n<html lang=\"en\">\n<head>\n    <meta charset=\"utf-8\">\n    <title>404 Not Found</title>\n</head>\n<body align=\"center\">\n    <div role=\"main\" align=\"center\">\n        <h1>404: Not Found</h1>\n        <p>The requested resource <span style=\"background:gray; padding: 0 5px; color: white;\">"@
}

/// The part of the not-found page after the path.
pub open spec fn page_tail() -> Seq<char> {
    "</span> could not be found.</p>\n        <hr />\n    </div>\n    <div role=\"contentinfo\" align=\"center\">\n        <small>Rocket</small>\n    </div>\n</body>\n</html>\n    "@
}

/// The page that answers a request for which there is no route: an HTML
/// page that names the path of the request, written as it was given.
pub fn default_404(path: &str) -> (page: String)
    ensures
        page@ == page_head() + path@ + page_tail(),
{
    let mut page = String::from_str(
        "<!DOCTYPE html>\n<html lang=\"en\">\n<head>\n    <meta charset=\"utf-8\">\n    <title>404 Not Found</title>\n</head>\n<body align=\"center\">\n    <div role=\"main\" align=\"center\">\n        <h1>404: Not Found</h1>\n        <p>The requested resource <span style=\"background:gray; padding: 0 5px; color: white;\">",
    );
    page.append(path);
    page.append(
        "</span> could not be found.</p>\n        <hr />\n    </div>\n    <div role=\"contentinfo\" align=\"center\">\n        <small>Rocket</small>\n    </div>\n</body>\n</html>\n    ",
    );
    page
}

} // verus!
