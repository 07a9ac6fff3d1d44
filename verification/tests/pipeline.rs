use user_lookup::counter::{visitor_message, VisitorCounter};
use user_lookup::filters::Filters;
use user_lookup::key::NameGrade;
use user_lookup::query::{compose, count_placeholders, lookup_query, Param, QuerySpec};
use user_lookup::request::{
    user_outcome, user_query, user_query_for, users_outcome, users_query, RequestError, StoreError,
};
use user_lookup::response::{
    default_404, default_response, render, render_collection, render_user, respond_found,
    status_response, Outcome, Response, Status,
};
use user_lookup::user::{render_users, write_record, User};

const ALEX_ID: u128 = 0x74d96050_8d8b_45e5_ac48_40c35208841e;
const ALEX_ID_TEXT: &str = "74d96050-8d8b-45e5-ac48-40c35208841e";
const SEARCH: &str =
    "SELECT id, name, age, grade, active FROM users WHERE NAME LIKE $1 AND grade = $2";
const FILTERED_SEARCH: &str = "SELECT id, name, age, grade, active FROM users WHERE NAME LIKE $1 AND grade = $2 AND age=$3 AND active=$4";
const LOOKUP: &str = "SELECT id, name, age, grade, active FROM users WHERE id = $1";
const ALEX_TEXT: &str =
    "User { id: 74d96050-8d8b-45e5-ac48-40c35208841e, name: \"Alex\", age: 36, grade: 10, active: true }";

fn alex() -> User {
    User { id: ALEX_ID, name: String::from("Alex"), age: 36, grade: 10, active: true }
}

fn bob() -> User {
    User { id: 1, name: String::from("Bob \"B\"\n"), age: -3, grade: 0, active: false }
}

fn header_pairs(response: &Response) -> Vec<(String, String)> {
    response.headers.iter().map(|h| (h.name.clone(), h.value.clone())).collect()
}

fn pair(name: &str, value: &str) -> (String, String) {
    (String::from(name), String::from(value))
}

fn text_of(param: &Param) -> Option<String> {
    match param {
        Param::Text(text) => Some(text.clone()),
        _ => None,
    }
}

fn small_of(param: &Param) -> Option<i16> {
    match param {
        Param::Small(number) => Some(*number),
        _ => None,
    }
}

fn flag_of(param: &Param) -> Option<bool> {
    match param {
        Param::Flag(flag) => Some(*flag),
        _ => None,
    }
}

fn id_of(param: &Param) -> Option<u128> {
    match param {
        Param::Id(id) => Some(*id),
        _ => None,
    }
}

#[test]
fn search_without_filter_binds_two_values() {
    let key = NameGrade { name: "Alex", grade: 10 };
    let query = compose(&key, &None);
    assert_eq!(query.template, SEARCH);
    assert_eq!(query.params.len(), 2);
    assert_eq!(text_of(&query.params[0]), Some(String::from("%Alex%")));
    assert_eq!(small_of(&query.params[1]), Some(10));
    assert!(query.is_consistent());
}

#[test]
fn search_with_filter_binds_four_values() {
    let key = NameGrade { name: "Alex", grade: 255 };
    let query = compose(&key, &Some(Filters { age: 200, active: true }));
    assert_eq!(query.template, FILTERED_SEARCH);
    assert_eq!(query.params.len(), 4);
    assert_eq!(text_of(&query.params[0]), Some(String::from("%Alex%")));
    assert_eq!(small_of(&query.params[1]), Some(255));
    assert_eq!(small_of(&query.params[2]), Some(200));
    assert_eq!(flag_of(&query.params[3]), Some(true));
    assert!(query.is_consistent());
}

#[test]
fn search_never_writes_a_value_into_the_template() {
    let key = NameGrade { name: "x' OR '1'='1", grade: 1 };
    let query = compose(&key, &None);
    assert_eq!(query.template, SEARCH);
    assert_eq!(text_of(&query.params[0]), Some(String::from("%x' OR '1'='1%")));
}

#[test]
fn search_with_empty_fragment_matches_every_name() {
    let key = NameGrade { name: "", grade: 3 };
    let query = compose(&key, &None);
    assert_eq!(text_of(&query.params[0]), Some(String::from("%%")));
}

#[test]
fn placeholders_are_counted() {
    assert_eq!(count_placeholders(""), 0);
    assert_eq!(count_placeholders("SELECT 1"), 0);
    assert_eq!(count_placeholders(SEARCH), 2);
    assert_eq!(count_placeholders(FILTERED_SEARCH), 4);
    assert_eq!(count_placeholders(LOOKUP), 1);
    assert_eq!(count_placeholders("$$"), 2);
}

#[test]
fn inconsistent_query_is_told() {
    let query = QuerySpec { template: String::from(SEARCH), params: vec![Param::Small(1)] };
    assert!(!query.is_consistent());
    let query = QuerySpec {
        template: String::from(LOOKUP),
        params: vec![Param::Id(1), Param::Flag(true)],
    };
    assert!(!query.is_consistent());
}

#[test]
fn lookup_binds_the_identifier() {
    let query = lookup_query(ALEX_ID);
    assert_eq!(query.template, LOOKUP);
    assert_eq!(query.params.len(), 1);
    assert_eq!(id_of(&query.params[0]), Some(ALEX_ID));
    assert!(query.is_consistent());
}

#[test]
fn users_query_composes_the_search() {
    let query = users_query("Alex_10", None, None).unwrap();
    assert_eq!(query.template, SEARCH);
    assert_eq!(text_of(&query.params[0]), Some(String::from("%Alex%")));
    assert_eq!(small_of(&query.params[1]), Some(10));

    let query = users_query("Alex_10", Some("36"), Some("true")).unwrap();
    assert_eq!(query.template, FILTERED_SEARCH);
    assert_eq!(small_of(&query.params[2]), Some(36));
    assert_eq!(flag_of(&query.params[3]), Some(true));

    let query = users_query("Alex_10", Some("36"), None).unwrap();
    assert_eq!(query.template, SEARCH);
    assert_eq!(query.params.len(), 2);
}

#[test]
fn users_query_refuses_malformed_requests() {
    assert_eq!(users_query("Alex", None, None).err(), Some(RequestError::MalformedKey));
    assert_eq!(users_query("Alex_300", None, None).err(), Some(RequestError::MalformedKey));
    assert_eq!(
        users_query("Alex_10", Some("old"), Some("true")).err(),
        Some(RequestError::MalformedFilter)
    );
    assert_eq!(
        users_query("Alex_10", Some("36"), Some("perhaps")).err(),
        Some(RequestError::MalformedFilter)
    );
    assert_eq!(
        users_query("Alex", Some("old"), Some("true")).err(),
        Some(RequestError::MalformedKey)
    );
}

#[test]
fn user_query_reads_the_identifier() {
    let query = user_query(ALEX_ID_TEXT).unwrap();
    assert_eq!(query.template, LOOKUP);
    assert_eq!(id_of(&query.params[0]), Some(ALEX_ID));

    let query = user_query("74D960508D8B45E5AC4840C35208841E").unwrap();
    assert_eq!(id_of(&query.params[0]), Some(ALEX_ID));
}

#[test]
fn user_query_refuses_what_is_no_identifier() {
    assert_eq!(user_query("not-a-uuid").err(), Some(RequestError::MalformedIdentifier));
    assert_eq!(user_query("").err(), Some(RequestError::MalformedIdentifier));
    assert_eq!(
        user_query("74d96050-8d8b-45e5-ac48-40c35208841").err(),
        Some(RequestError::MalformedIdentifier)
    );
    assert_eq!(user_query_for(None).err(), Some(RequestError::MalformedIdentifier));
    assert_eq!(id_of(&user_query_for(Some(7)).unwrap().params[0]), Some(7));
}

#[test]
fn errors_map_to_their_status() {
    assert_eq!(RequestError::MalformedKey.status(), Status::BadRequest);
    assert_eq!(RequestError::MalformedFilter.status(), Status::BadRequest);
    assert_eq!(RequestError::MalformedIdentifier.status(), Status::BadRequest);
    assert_eq!(RequestError::NotFound.status(), Status::NotFound);
    assert_eq!(RequestError::RouteNotFound.status(), Status::NotFound);
    assert_eq!(RequestError::StoreFailure.status(), Status::InternalServerError);
    assert_eq!(render(&RequestError::MalformedKey.outcome()).status, Status::BadRequest);
    assert_eq!(render(&RequestError::MalformedFilter.outcome()).status, Status::BadRequest);
    assert_eq!(render(&RequestError::MalformedIdentifier.outcome()).status, Status::BadRequest);
    assert_eq!(render(&RequestError::NotFound.outcome()).status, Status::NotFound);
    assert_eq!(render(&RequestError::RouteNotFound.outcome()).status, Status::NotFound);
    assert_eq!(render(&RequestError::StoreFailure.outcome()).status, Status::InternalServerError);
}

#[test]
fn status_codes() {
    assert_eq!(Status::Success.code(), 200);
    assert_eq!(Status::BadRequest.code(), 400);
    assert_eq!(Status::NotFound.code(), 404);
    assert_eq!(Status::InternalServerError.code(), 500);
}

#[test]
fn record_text_is_the_debug_rendering() {
    assert_eq!(alex().render(), ALEX_TEXT);
    assert_eq!(
        bob().render(),
        "User { id: 00000000-0000-0000-0000-000000000001, name: \"Bob \\\"B\\\"\\n\", age: -3, grade: 0, active: false }"
    );
    assert_eq!(
        write_record("ID", "NAME", -32768, 32767, false),
        "User { id: ID, name: NAME, age: -32768, grade: 32767, active: false }"
    );
}

#[test]
fn record_copy_keeps_every_field() {
    let copy = bob().duplicate();
    assert_eq!(copy.id, 1);
    assert_eq!(copy.name, "Bob \"B\"\n");
    assert_eq!(copy.age, -3);
    assert_eq!(copy.grade, 0);
    assert!(!copy.active);
}

#[test]
fn records_are_joined_with_commas() {
    assert_eq!(render_users(&vec![]), "");
    assert_eq!(render_users(&vec![alex()]), ALEX_TEXT);
    assert_eq!(
        render_users(&vec![alex(), alex(), alex()]),
        format!("{},{},{}", ALEX_TEXT, ALEX_TEXT, ALEX_TEXT)
    );
}

#[test]
fn default_response_carries_the_fixed_headers() {
    let response = default_response();
    assert_eq!(response.status, Status::Success);
    assert_eq!(response.body, "");
    assert_eq!(
        header_pairs(&response),
        vec![pair("Content-Type", "text/plain; charset=utf-8"), pair("X-CUSTOM-HEADER", "CUSTOM")]
    );
}

#[test]
fn single_record_response_names_the_identifier() {
    let response = render_user(&alex());
    assert_eq!(response.status, Status::Success);
    assert_eq!(response.body, format!("Found user: {}", ALEX_TEXT));
    assert!(response.body.contains(ALEX_ID_TEXT));
    assert_eq!(
        header_pairs(&response),
        vec![
            pair("X-USER-ID", ALEX_ID_TEXT),
            pair("Content-Type", "text/plain; charset=utf-8"),
            pair("X-CUSTOM-HEADER", "CUSTOM")
        ]
    );
    let response = respond_found("ID", "RECORD");
    assert_eq!(response.body, "Found user: RECORD");
    assert_eq!(header_pairs(&response)[0], pair("X-USER-ID", "ID"));
}

#[test]
fn collection_response_is_tagged() {
    let response = render_collection(&vec![alex(), bob()]);
    assert_eq!(response.status, Status::Success);
    assert_eq!(response.body, format!("{},{}", ALEX_TEXT, bob().render()));
    assert_eq!(
        header_pairs(&response),
        vec![
            pair("X-CUSTOM-ID", "USERS"),
            pair("Content-Type", "text/plain; charset=utf-8"),
            pair("X-CUSTOM-HEADER", "CUSTOM")
        ]
    );
}

#[test]
fn empty_collection_is_not_found() {
    let response = render_collection(&vec![]);
    assert_eq!(response.status, Status::NotFound);
    assert_eq!(response.body, "");
    assert_eq!(header_pairs(&response), header_pairs(&default_response()));
    let response = render(&Outcome::Collection(vec![]));
    assert_eq!(response.status, Status::NotFound);
}

#[test]
fn every_outcome_carries_the_fixed_headers() {
    let outcomes = vec![
        Outcome::SingleRecord(alex()),
        Outcome::Collection(vec![alex()]),
        Outcome::Collection(vec![]),
        Outcome::NotFound,
        Outcome::ClientError,
        Outcome::ServerError,
    ];
    let fixed = header_pairs(&default_response());
    for outcome in outcomes.iter() {
        let headers = header_pairs(&render(outcome));
        assert!(headers.len() >= 2);
        assert_eq!(headers[headers.len() - 2..].to_vec(), fixed);
    }
}

#[test]
fn failures_render_without_body() {
    for (outcome, status) in [
        (Outcome::NotFound, Status::NotFound),
        (Outcome::ClientError, Status::BadRequest),
        (Outcome::ServerError, Status::InternalServerError),
    ] {
        let response = render(&outcome);
        assert_eq!(response.status, status);
        assert_eq!(response.body, "");
        assert_eq!(header_pairs(&response), header_pairs(&status_response(status)));
    }
}

#[test]
fn search_ends_by_what_the_store_gave() {
    assert!(matches!(users_outcome(Ok(vec![])), Outcome::NotFound));
    assert!(matches!(users_outcome(Err(StoreError::Connectivity)), Outcome::ServerError));
    assert!(matches!(users_outcome(Err(StoreError::Rejected)), Outcome::ServerError));
    assert!(matches!(users_outcome(Err(StoreError::Timeout)), Outcome::ServerError));
    match users_outcome(Ok(vec![alex(), bob()])) {
        Outcome::Collection(users) => {
            assert_eq!(users.len(), 2);
            assert_eq!(users[0].id, ALEX_ID);
            assert_eq!(users[1].id, 1);
        }
        _ => panic!("a collection was expected"),
    }
}

#[test]
fn lookup_ends_by_what_the_store_gave() {
    assert!(matches!(user_outcome(Ok(vec![])), Outcome::NotFound));
    assert!(matches!(user_outcome(Err(StoreError::Connectivity)), Outcome::ServerError));
    assert!(matches!(user_outcome(Err(StoreError::Rejected)), Outcome::ServerError));
    assert!(matches!(user_outcome(Err(StoreError::Timeout)), Outcome::ServerError));
    match user_outcome(Ok(vec![alex()])) {
        Outcome::SingleRecord(user) => assert_eq!(user.id, ALEX_ID),
        _ => panic!("a single record was expected"),
    }
    match user_outcome(Ok(vec![bob(), alex()])) {
        Outcome::SingleRecord(user) => assert_eq!(user.id, 1),
        _ => panic!("a single record was expected"),
    }
}

#[test]
fn not_found_page_names_the_path() {
    let page = default_404("/nowhere?x=1");
    assert!(page.starts_with("<!DOCTYPE html>\n<html lang=\"en\">\n<head>\n"));
    assert!(page.contains(
        "<p>The requested resource <span style=\"background:gray; padding: 0 5px; color: white;\">/nowhere?x=1</span> could not be found.</p>"
    ));
    assert!(page.contains("<h1>404: Not Found</h1>"));
    assert!(page.ends_with("</body>\n</html>\n    "));
    assert_eq!(page.len(), 294 + 163 + "/nowhere?x=1".len());
    assert_eq!(default_404("").len(), 294 + 163);
}

#[test]
fn visitors_are_counted() {
    let counter = VisitorCounter::new();
    assert_eq!(counter.increment(), 1);
    assert_eq!(counter.increment(), 2);
    assert_eq!(counter.increment(), 3);
    assert_eq!(visitor_message(3), "The number of visitors: 3");
    assert_eq!(visitor_message(0), "The number of visitors: 0");
    assert_eq!(visitor_message(u64::MAX), "The number of visitors: 18446744073709551615");
}
