//! A directory of user records held in memory, which answers the queries of
//! the service as the store does. It stands in for the store where there is
//! none.
//!
//! The directory knows the three queries that the service composes and
//! refuses every other. A name pattern is `%`, a fragment, `%`; the
//! directory does not know wildcards inside the fragment and refuses a
//! pattern that holds one there.

use crate::filters::Filters;
use crate::key::KeyView;
use crate::query::{
    composed_query, filter_clauses, lookup_query_of, lookup_template, name_pattern,
    search_template, Param, QuerySpec, QueryView,
};
use crate::request::{found_views, search_outcome, StoreError};
use crate::response::OutcomeView;
use crate::text::{chars_of, occurs, occurs_in};
use crate::user::{views_of, User, UserView};
use vstd::prelude::*;

verus! {

/// What a query asks of each record.
pub enum Criteria {
    /// The record has this identifier.
    Lookup { id: u128 },
    /// The name of the record holds the fragment, its grade is the given
    /// one and, where there is a filter, its age and active flag are those of
    /// the filter.
    Search { fragment: Seq<char>, grade: i16, filter: Option<(i16, bool)> },
}

/// Whether `c` has a meaning of its own inside a name pattern.
pub open spec fn is_wildcard(c: char) -> bool {
    c == '%' || c == '_' || c == '\\'
}

/// Whether a pattern is `%`, a fragment without wildcards, `%`.
pub open spec fn plain_pattern(pattern: Seq<char>) -> bool {
    &&& pattern.len() >= 2
    &&& pattern.first() == '%'
    &&& pattern.last() == '%'
    &&& forall|i: int| 1 <= i < pattern.len() - 1 ==> !is_wildcard(#[trigger] pattern[i])
}

/// The fragment of a plain pattern.
pub open spec fn pattern_fragment(pattern: Seq<char>) -> Seq<char> {
    pattern.subrange(1, pattern.len() - 1)
}

/// What a query asks, or `None` where the directory does not know the
/// query: its template is none of the three, or its values are not those
/// that the template binds.
pub open spec fn criteria_of(query: QueryView) -> Option<Criteria> {
    let p = query.params;
    if query.template == lookup_template() {
        if p.len() == 1 && p[0] is Id {
            Some(Criteria::Lookup { id: p[0]->Id_0 })
        } else {
            None
        }
    } else if query.template == search_template() {
        if p.len() == 2 && p[0] is Text && p[1] is Small && plain_pattern(p[0]->Text_0) {
            Some(
                Criteria::Search {
                    fragment: pattern_fragment(p[0]->Text_0),
                    grade: p[1]->Small_0,
                    filter: None,
                },
            )
        } else {
            None
        }
    } else if query.template == search_template() + filter_clauses() {
        if p.len() == 4 && p[0] is Text && p[1] is Small && p[2] is Small && p[3] is Flag
            && plain_pattern(p[0]->Text_0) {
            Some(
                Criteria::Search {
                    fragment: pattern_fragment(p[0]->Text_0),
                    grade: p[1]->Small_0,
                    filter: Some((p[2]->Small_0, p[3]->Flag_0)),
                },
            )
        } else {
            None
        }
    } else {
        None
    }
}

/// Whether a record is one that the query asks for.
pub open spec fn meets(criteria: Criteria, user: UserView) -> bool {
    match criteria {
        Criteria::Lookup { id } => user.id == id,
        Criteria::Search { fragment, grade, filter } => {
            &&& occurs_in(fragment, user.name)
            &&& user.grade == grade
            &&& match filter {
                Some((age, active)) => user.age == age && user.active == active,
                None => true,
            }
        },
    }
}

/// The records that a query asks for, in the order in which the directory
/// holds them.
pub open spec fn selected(records: Seq<UserView>, criteria: Criteria) -> Seq<UserView>
    decreases records.len(),
{
    if records.len() == 0 {
        Seq::empty()
    } else if meets(criteria, records.last()) {
        selected(records.drop_last(), criteria).push(records.last())
    } else {
        selected(records.drop_last(), criteria)
    }
}

/// What the directory answers: the records that the query asks for, or a
/// refusal where it does not know the query.
pub open spec fn answer(records: Seq<UserView>, query: QueryView) -> Result<
    Seq<UserView>,
    StoreError,
> {
    match criteria_of(query) {
        Some(criteria) => Ok(selected(records, criteria)),
        None => Err(StoreError::Rejected),
    }
}

/// Whether a name fragment holds no wildcard.
pub open spec fn plain_fragment(fragment: Seq<char>) -> bool {
    forall|i: int| 0 <= i < fragment.len() ==> !is_wildcard(#[trigger] fragment[i])
}

/// What the search for a key and a filter asks of each record.
pub open spec fn search_criteria(key: KeyView, filters: Option<Filters>) -> Criteria {
    Criteria::Search {
        fragment: key.name,
        grade: key.grade as i16,
        filter: match filters {
            Some(filter) => Some((filter.age as i16, filter.active)),
            None => None,
        },
    }
}

/// The directory knows the search that the service composes for a key whose
/// name fragment holds no wildcard: it asks for the records whose name holds
/// the fragment, whose grade is that of the key and which pass the filter.
pub proof fn lemma_composed_search_understood(key: KeyView, filters: Option<Filters>)
    requires
        plain_fragment(key.name),
    ensures
        criteria_of(composed_query(key, filters)) == Some(search_criteria(key, filters)),
{
    reveal_strlit("%");
    reveal_strlit("SELECT id, name, age, grade, active FROM users WHERE id = $1");
    reveal_strlit(
        "SELECT id, name, age, grade, active FROM users WHERE NAME LIKE $1 AND grade = $2",
    );
    reveal_strlit(" AND age=$3 AND active=$4");
    let pattern = name_pattern(key.name);
    assert(pattern.len() == key.name.len() + 2);
    assert(pattern_fragment(pattern) =~= key.name);
    assert forall|i: int| 1 <= i < pattern.len() - 1 implies !is_wildcard(
        #[trigger] pattern[i],
    ) by {
        assert(pattern[i] == key.name[i - 1]);
    }
    assert(search_template().len() == 80);
    assert(lookup_template().len() == 60);
    assert((search_template() + filter_clauses()).len() == 105);
}

/// The directory knows the lookup that the service composes: it asks for
/// the records with the identifier.
pub proof fn lemma_composed_lookup_understood(id: u128)
    ensures
        criteria_of(lookup_query_of(id)) == Some(Criteria::Lookup { id }),
{
}

/// The records that a query asks for are those of the records, in their
/// order, that meet what it asks.
pub proof fn lemma_selected_is_filter(
    records: Seq<UserView>,
    criteria: Criteria,
    wanted: spec_fn(UserView) -> bool,
)
    requires
        forall|user: UserView| meets(criteria, user) == #[trigger] wanted(user),
    ensures
        selected(records, criteria) == records.filter(wanted),
    decreases records.len(),
{
    reveal(Seq::filter);
    if records.len() > 0 {
        lemma_selected_is_filter(records.drop_last(), criteria, wanted);
    }
}

/// Where no record meets what a query asks, it selects none.
pub proof fn lemma_selected_none(records: Seq<UserView>, criteria: Criteria)
    requires
        forall|i: int| 0 <= i < records.len() ==> !meets(criteria, #[trigger] records[i]),
    ensures
        selected(records, criteria) == Seq::<UserView>::empty(),
    decreases records.len(),
{
    if records.len() > 0 {
        let rest = records.drop_last();
        assert forall|i: int| 0 <= i < rest.len() implies !meets(criteria, #[trigger] rest[i]) by {
            assert(rest[i] == records[i]);
        }
        lemma_selected_none(rest, criteria);
        assert(records.last() == records[records.len() - 1]);
    }
}

/// A search by a name fragment that stands in the name of no record ends
/// as not found, whatever the grade and the filter.
pub proof fn lemma_search_without_match_is_not_found(
    records: Seq<UserView>,
    key: KeyView,
    filters: Option<Filters>,
)
    requires
        plain_fragment(key.name),
        forall|i: int| 0 <= i < records.len() ==> !occurs_in(key.name, #[trigger] records[i].name),
    ensures
        answer(records, composed_query(key, filters)) == Ok::<Seq<UserView>, StoreError>(
            Seq::empty(),
        ),
        search_outcome(answer(records, composed_query(key, filters))) == OutcomeView::NotFound,
{
    lemma_composed_search_understood(key, filters);
    let criteria = search_criteria(key, filters);
    assert forall|i: int| 0 <= i < records.len() implies !meets(
        criteria,
        #[trigger] records[i],
    ) by {
        assert(!occurs_in(key.name, records[i].name));
    }
    lemma_selected_none(records, criteria);
}

/// A search by the empty name fragment, without filter, gives every record
/// of the grade, in the order in which the directory holds them.
pub proof fn lemma_empty_fragment_selects_grade(records: Seq<UserView>, grade: u8)
    ensures
        answer(records, composed_query(KeyView { name: Seq::empty(), grade }, None)) == Ok::<
            Seq<UserView>,
            StoreError,
        >(records.filter(|user: UserView| user.grade == grade as i16)),
{
    let key = KeyView { name: Seq::empty(), grade };
    lemma_composed_search_understood(key, None);
    let criteria = search_criteria(key, None);
    let wanted = |user: UserView| user.grade == grade as i16;
    assert forall|user: UserView| meets(criteria, user) == #[trigger] wanted(user) by {
        let nothing = Seq::<char>::empty();
        assert(user.name.subrange(0int, 0int + nothing.len()) =~= nothing);
        assert(occurs_in(nothing, user.name));
    }
    lemma_selected_is_filter(records, criteria, wanted);
}

/// A directory of user records held in memory.
#[derive(Debug)]
pub struct MemoryDirectory {
    pub records: Vec<User>,
}

/// What a name pattern asks for: its fragment, or `None` where the pattern
/// is not plain.
fn read_pattern(pattern: &str) -> (fragment: Option<Vec<char>>)
    ensures
        plain_pattern(pattern@) ==> fragment is Some && fragment->0@ == pattern_fragment(pattern@),
        !plain_pattern(pattern@) ==> fragment is None,
{
    let chars = chars_of(pattern);
    let n: usize = chars.len();
    if n < 2 || chars[0] != '%' || chars[n - 1] != '%' {
        return None;
    }
    let mut fragment: Vec<char> = Vec::new();
    let mut i: usize = 1;
    while i < n - 1
        invariant
            n == chars.len(),
            n >= 2,
            1 <= i <= n - 1,
            chars@ == pattern@,
            fragment@ == pattern@.subrange(1, i as int),
            forall|j: int| 1 <= j < i ==> !is_wildcard(#[trigger] pattern@[j]),
        decreases n - i,
    {
        let c = chars[i];
        if c == '%' || c == '_' || c == '\\' {
            assert(is_wildcard(pattern@[i as int]));
            return None;
        }
        fragment.push(c);
        assert(fragment@ =~= pattern@.subrange(1, i + 1));
        i = i + 1;
    }
    Some(fragment)
}

impl MemoryDirectory {
    /// The directory that holds the given records.
    pub fn new(records: Vec<User>) -> (directory: MemoryDirectory)
        ensures
            directory.records@ == records@,
    {
        MemoryDirectory { records }
    }

    /// The records with the identifier `id`.
    fn select_by_id(&self, id: u128) -> (found: Vec<User>)
        ensures
            views_of(found@) == selected(views_of(self.records@), Criteria::Lookup { id }),
    {
        let ghost criteria = Criteria::Lookup { id };
        let ghost all = views_of(self.records@);
        let mut found: Vec<User> = Vec::new();
        let mut i: usize = 0;
        while i < self.records.len()
            invariant
                i <= self.records.len(),
                all == views_of(self.records@),
                criteria == (Criteria::Lookup { id }),
                views_of(found@) == selected(all.take(i as int), criteria),
            decreases self.records.len() - i,
        {
            assert(all.take(i + 1).drop_last() =~= all.take(i as int));
            assert(all.take(i + 1).last() == self.records@[i as int]@);
            if self.records[i].id == id {
                let copy = self.records[i].duplicate();
                let ghost before = found@;
                found.push(copy);
                assert(views_of(found@) =~= views_of(before).push(copy@));
            }
            i = i + 1;
        }
        assert(all.take(i as int) =~= all);
        found
    }

    /// The records whose name holds the fragment, whose grade is the given
    /// one and which pass the filter where there is one.
    fn select_search(&self, fragment: &Vec<char>, grade: i16, filter: Option<(i16, bool)>) -> (found:
        Vec<User>)
        ensures
            views_of(found@) == selected(
                views_of(self.records@),
                Criteria::Search { fragment: fragment@, grade, filter },
            ),
    {
        let ghost criteria = Criteria::Search { fragment: fragment@, grade, filter };
        let ghost all = views_of(self.records@);
        let mut found: Vec<User> = Vec::new();
        let mut i: usize = 0;
        while i < self.records.len()
            invariant
                i <= self.records.len(),
                all == views_of(self.records@),
                criteria == (Criteria::Search { fragment: fragment@, grade, filter }),
                views_of(found@) == selected(all.take(i as int), criteria),
            decreases self.records.len() - i,
        {
            assert(all.take(i + 1).drop_last() =~= all.take(i as int));
            assert(all.take(i + 1).last() == self.records@[i as int]@);
            let record = &self.records[i];
            let name = chars_of(record.name.as_str());
            let passes = match filter {
                Some((age, active)) => record.age == age && record.active == active,
                None => true,
            };
            if record.grade == grade && passes && occurs(fragment, &name) {
                let copy = record.duplicate();
                let ghost before = found@;
                found.push(copy);
                assert(views_of(found@) =~= views_of(before).push(copy@));
            }
            i = i + 1;
        }
        assert(all.take(i as int) =~= all);
        found
    }

    /// Answers a query: the records that it asks for, in the order in which
    /// the directory holds them, or a refusal where the directory does not
    /// know the query.
    pub fn execute(&self, query: &QuerySpec) -> (found: Result<Vec<User>, StoreError>)
        ensures
            found_views(found) == answer(views_of(self.records@), query@),
    {
        let lookup = String::from_str(
            "SELECT id, name, age, grade, active FROM users WHERE id = $1",
        );
        let search = String::from_str(
            "SELECT id, name, age, grade, active FROM users WHERE NAME LIKE $1 AND grade = $2",
        );
        let mut filtered = String::from_str(
            "SELECT id, name, age, grade, active FROM users WHERE NAME LIKE $1 AND grade = $2",
        );
        filtered.append(" AND age=$3 AND active=$4");
        let params = &query.params;
        if query.template == lookup {
            if params.len() == 1 {
                if let Param::Id(id) = &params[0] {
                    return Ok(self.select_by_id(*id));
                }
            }
            Err(StoreError::Rejected)
        } else if query.template == search {
            if params.len() == 2 {
                if let (Param::Text(pattern), Param::Small(grade)) = (&params[0], &params[1]) {
                    if let Some(fragment) = read_pattern(pattern.as_str()) {
                        return Ok(self.select_search(&fragment, *grade, None));
                    }
                }
            }
            Err(StoreError::Rejected)
        } else if query.template == filtered {
            if params.len() == 4 {
                if let (
                    Param::Text(pattern),
                    Param::Small(grade),
                    Param::Small(age),
                    Param::Flag(active),
                ) = (&params[0], &params[1], &params[2], &params[3]) {
                    if let Some(fragment) = read_pattern(pattern.as_str()) {
                        return Ok(self.select_search(&fragment, *grade, Some((*age, *active))));
                    }
                }
            }
            Err(StoreError::Rejected)
        } else {
            Err(StoreError::Rejected)
        }
    }
}

} // verus!
