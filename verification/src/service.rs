//! The two requests of the service, from the request to the response, over
//! a directory held in memory.

use crate::counter::VisitorCounter;
use crate::directory::{
    answer, lemma_composed_lookup_understood, lemma_search_without_match_is_not_found,
    lemma_selected_none, meets, plain_fragment, selected, Criteria, MemoryDirectory,
};
use crate::filters::field_text;
use crate::ident::{identifier_of_text, identifier_text};
use crate::query::{composed_query, lookup_query_of};
use crate::request::{
    lookup_outcome, planned_search, search_outcome, user_outcome, user_query, users_outcome,
    users_query,
};
use crate::response::{
    bare_response, carries, lemma_single_record_names_identifier, render, rendered,
    user_id_header, OutcomeView, Response, ResponseView, Status,
};
use crate::text::occurs_in;
use crate::user::{views_of, UserView};
use vstd::prelude::*;

verus! {

/// The response to a search of the records: the refusal of a malformed
/// request, for which the records are not asked, or what the records answer
/// to the composed query.
pub open spec fn users_response(
    records: Seq<UserView>,
    name_grade: Seq<char>,
    age: Option<Seq<char>>,
    active: Option<Seq<char>>,
) -> ResponseView {
    rendered(
        match planned_search(name_grade, age, active) {
            Err(error) => error.outcome_of(),
            Ok((key, filters)) => search_outcome(answer(records, composed_query(key, filters))),
        },
    )
}

/// The response to a lookup in the records: the refusal of a text that is
/// no identifier, for which the records are not asked, or what the records
/// answer to the composed query.
pub open spec fn user_response(records: Seq<UserView>, uuid: Seq<char>) -> ResponseView {
    rendered(
        match identifier_of_text(uuid) {
            None => OutcomeView::ClientError,
            Some(id) => lookup_outcome(answer(records, lookup_query_of(id))),
        },
    )
}

/// Answers a search: counts the visit, reads the composite key and the
/// filter, asks the directory once and renders what it gave.
pub fn users(
    counter: &VisitorCounter,
    directory: &MemoryDirectory,
    name_grade: &str,
    age: Option<&str>,
    active: Option<&str>,
) -> (response: Response)
    ensures
        response@ == users_response(
            views_of(directory.records@),
            name_grade@,
            field_text(age),
            field_text(active),
        ),
{
    counter.increment();
    let outcome = match users_query(name_grade, age, active) {
        Err(error) => error.outcome(),
        Ok(query) => users_outcome(directory.execute(&query)),
    };
    render(&outcome)
}

/// Answers a lookup: counts the visit, reads the identifier, asks the
/// directory once and renders what it gave.
pub fn user(counter: &VisitorCounter, directory: &MemoryDirectory, uuid: &str) -> (response:
    Response)
    ensures
        response@ == user_response(views_of(directory.records@), uuid@),
{
    counter.increment();
    let outcome = match user_query(uuid) {
        Err(error) => error.outcome(),
        Ok(query) => user_outcome(directory.execute(&query)),
    };
    render(&outcome)
}

/// Where some record meets what a query asks, the query selects at least
/// one, and the first that it selects is the first record that meets it.
pub proof fn lemma_selected_first(records: Seq<UserView>, criteria: Criteria, at: int)
    requires
        0 <= at < records.len(),
        meets(criteria, records[at]),
        forall|i: int| 0 <= i < at ==> !meets(criteria, #[trigger] records[i]),
    ensures
        selected(records, criteria).len() > 0,
        selected(records, criteria)[0] == records[at],
    decreases records.len(),
{
    let rest = records.drop_last();
    if at < rest.len() {
        assert(rest[at] == records[at]);
        assert forall|i: int| 0 <= i < at implies !meets(criteria, #[trigger] rest[i]) by {
            assert(rest[i] == records[i]);
        }
        lemma_selected_first(rest, criteria, at);
    } else {
        assert forall|i: int| 0 <= i < rest.len() implies !meets(criteria, #[trigger] rest[i]) by {
            assert(rest[i] == records[i]);
        }
        lemma_selected_none(rest, criteria);
    }
}

/// Among the records up to one that meets what a query asks, there is a
/// first that does.
pub proof fn lemma_first_that_meets(records: Seq<UserView>, criteria: Criteria, at: int) -> (first:
    int)
    requires
        0 <= at < records.len(),
        meets(criteria, records[at]),
    ensures
        0 <= first <= at,
        meets(criteria, records[first]),
        forall|j: int| 0 <= j < first ==> !meets(criteria, #[trigger] records[j]),
    decreases at,
{
    if exists|k: int| 0 <= k < at && meets(criteria, records[k]) {
        let k = choose|k: int| 0 <= k < at && meets(criteria, records[k]);
        lemma_first_that_meets(records, criteria, k)
    } else {
        at
    }
}

/// Looking up the identifier of a record that the directory holds succeeds,
/// and the response names that identifier in its body and in the header of
/// its path.
pub proof fn lemma_lookup_of_known_identifier(records: Seq<UserView>, uuid: Seq<char>, at: int)
    requires
        0 <= at < records.len(),
        identifier_of_text(uuid) == Some(records[at].id),
    ensures
        user_response(records, uuid).status == Status::Success,
        occurs_in(identifier_text(records[at].id), user_response(records, uuid).body),
        carries(user_response(records, uuid).headers, user_id_header(records[at].id)),
{
    let id = records[at].id;
    let criteria = Criteria::Lookup { id };
    lemma_composed_lookup_understood(id);
    let first = lemma_first_that_meets(records, criteria, at);
    lemma_selected_first(records, criteria, first);
    lemma_single_record_names_identifier(selected(records, criteria)[0]);
}

/// Looking up a text that is no identifier is refused as a malformed
/// request, whatever the directory holds: the records are not asked.
pub proof fn lemma_lookup_of_invalid_identifier(records: Seq<UserView>, uuid: Seq<char>)
    requires
        identifier_of_text(uuid) is None,
    ensures
        user_response(records, uuid) == bare_response(Status::BadRequest),
{
}

/// A search whose name fragment stands in the name of no record is
/// answered as not found.
pub proof fn lemma_search_without_match_responds_not_found(
    records: Seq<UserView>,
    name_grade: Seq<char>,
    age: Option<Seq<char>>,
    active: Option<Seq<char>>,
)
    requires
        planned_search(name_grade, age, active) is Ok,
        plain_fragment(planned_search(name_grade, age, active)->Ok_0.0.name),
        forall|i: int|
            0 <= i < records.len() ==> !occurs_in(
                planned_search(name_grade, age, active)->Ok_0.0.name,
                #[trigger] records[i].name,
            ),
    ensures
        users_response(records, name_grade, age, active) == bare_response(Status::NotFound),
{
    let (key, filters) = planned_search(name_grade, age, active)->Ok_0;
    lemma_search_without_match_is_not_found(records, key, filters);
}

} // verus!
