//! Parameterized read queries against the user table.
//!
//! A query is a template, in which `$1`, `$2`, ... mark the places of the
//! values, and the values themselves, in the order of their places. No value
//! is ever written into the template.

use crate::filters::Filters;
use crate::key::{KeyView, NameGrade};
use crate::text::chars_of;
use vstd::prelude::*;

verus! {

/// The character that opens a placeholder in a template.
pub const PLACEHOLDER: char = '$';

/// A value bound to a placeholder.
#[derive(Debug)]
pub enum Param {
    /// A text, here the pattern that a name is matched against.
    Text(String),
    /// A small number: a grade or an age.
    Small(i16),
    /// A flag.
    Flag(bool),
    /// The identifier of a record.
    Id(u128),
}

/// What a bound value is, as plain values.
pub enum ParamView {
    Text(Seq<char>),
    Small(i16),
    Flag(bool),
    Id(u128),
}

impl View for Param {
    type V = ParamView;

    open spec fn view(&self) -> ParamView {
        match self {
            Param::Text(text) => ParamView::Text(text@),
            Param::Small(number) => ParamView::Small(*number),
            Param::Flag(flag) => ParamView::Flag(*flag),
            Param::Id(id) => ParamView::Id(*id),
        }
    }
}

/// A query ready to run: a template and its bound values.
#[derive(Debug)]
pub struct QuerySpec {
    pub template: String,
    pub params: Vec<Param>,
}

/// What a query is, as plain values.
pub struct QueryView {
    pub template: Seq<char>,
    pub params: Seq<ParamView>,
}

impl View for QuerySpec {
    type V = QueryView;

    open spec fn view(&self) -> QueryView {
        QueryView { template: self.template@, params: self.params@.map_values(|p: Param| p@) }
    }
}

/// How many placeholders a template holds.
pub open spec fn placeholder_count(template: Seq<char>) -> nat
    decreases template.len(),
{
    if template.len() == 0 {
        0
    } else if template.last() == PLACEHOLDER {
        1 + placeholder_count(template.drop_last())
    } else {
        placeholder_count(template.drop_last())
    }
}

impl QueryView {
    /// A query is consistent where it binds one value for each placeholder
    /// of its template.
    pub open spec fn consistent(self) -> bool {
        placeholder_count(self.template) == self.params.len()
    }
}

/// The search without filter: the name matches a pattern and the grade is
/// the given one.
pub open spec fn search_template() -> Seq<char> {
    "SELECT id, name, age, grade, active FROM users WHERE NAME LIKE $1 AND grade = $2"@
}

/// The two clauses that a filter adds to the search.
pub open spec fn filter_clauses() -> Seq<char> {
    " AND age=$3 AND active=$4"@
}

/// The lookup of one record by its identifier.
pub open spec fn lookup_template() -> Seq<char> {
    "SELECT id, name, age, grade, active FROM users WHERE id = $1"@
}

/// The pattern that matches the names in which `fragment` occurs.
pub open spec fn name_pattern(fragment: Seq<char>) -> Seq<char> {
    "%"@ + fragment + "%"@
}

/// The query that a search composes. Its values are bound in the order of
/// the clauses: the name pattern, the grade and then, where there is a
/// filter, the age and the active flag.
pub open spec fn composed_query(key: KeyView, filters: Option<Filters>) -> QueryView {
    match filters {
        None => QueryView {
            template: search_template(),
            params: seq![
                ParamView::Text(name_pattern(key.name)),
                ParamView::Small(key.grade as i16),
            ],
        },
        Some(filter) => QueryView {
            template: search_template() + filter_clauses(),
            params: seq![
                ParamView::Text(name_pattern(key.name)),
                ParamView::Small(key.grade as i16),
                ParamView::Small(filter.age as i16),
                ParamView::Flag(filter.active),
            ],
        },
    }
}

/// The query that looks up the record with the identifier `id`.
pub open spec fn lookup_query_of(id: u128) -> QueryView {
    QueryView { template: lookup_template(), params: seq![ParamView::Id(id)] }
}

/// The placeholders of two texts put together are those of the first and
/// those of the second.
pub proof fn lemma_placeholder_count_concat(a: Seq<char>, b: Seq<char>)
    ensures
        placeholder_count(a + b) == placeholder_count(a) + placeholder_count(b),
    decreases b.len(),
{
    if b.len() == 0 {
        assert(a + b =~= a);
    } else {
        lemma_placeholder_count_concat(a, b.drop_last());
        assert((a + b).drop_last() =~= a + b.drop_last());
        assert((a + b).last() == b.last());
    }
}

/// A text counts as many placeholders as it has places that open one, here
/// for a text that has none.
pub proof fn lemma_placeholder_count_none(s: Seq<char>)
    requires
        forall|i: int| 0 <= i < s.len() ==> s[i] != PLACEHOLDER,
    ensures
        placeholder_count(s) == 0,
    decreases s.len(),
{
    if s.len() > 0 {
        let rest = s.drop_last();
        assert forall|i: int| 0 <= i < rest.len() implies rest[i] != PLACEHOLDER by {
            assert(rest[i] == s[i]);
        }
        lemma_placeholder_count_none(rest);
    }
}

/// A text whose only placeholders open at the places `first` and `second`
/// counts two.
pub proof fn lemma_placeholder_count_two(s: Seq<char>, first: int, second: int)
    requires
        0 <= first < second < s.len(),
        forall|i: int| 0 <= i < s.len() ==> (s[i] == PLACEHOLDER <==> i == first || i == second),
    ensures
        placeholder_count(s) == 2,
{
    let a = s.subrange(0, first);
    let b = s.subrange(first + 1, second);
    let c = s.subrange(second + 1, s.len() as int);
    let mark = seq![PLACEHOLDER];
    lemma_placeholder_count_none(a);
    lemma_placeholder_count_none(b);
    lemma_placeholder_count_none(c);
    assert(mark.drop_last() =~= Seq::<char>::empty());
    assert(placeholder_count(mark.drop_last()) == 0);
    assert(placeholder_count(mark) == 1);
    assert(s =~= a + mark + b + mark + c);
    lemma_placeholder_count_concat(a, mark);
    lemma_placeholder_count_concat(a + mark, b);
    lemma_placeholder_count_concat(a + mark + b, mark);
    lemma_placeholder_count_concat(a + mark + b + mark, c);
}

/// A text whose only placeholder opens at the place `only` counts one.
pub proof fn lemma_placeholder_count_one(s: Seq<char>, only: int)
    requires
        0 <= only < s.len(),
        forall|i: int| 0 <= i < s.len() ==> (s[i] == PLACEHOLDER <==> i == only),
    ensures
        placeholder_count(s) == 1,
{
    let a = s.subrange(0, only);
    let b = s.subrange(only + 1, s.len() as int);
    let mark = seq![PLACEHOLDER];
    lemma_placeholder_count_none(a);
    lemma_placeholder_count_none(b);
    assert(mark.drop_last() =~= Seq::<char>::empty());
    assert(placeholder_count(mark.drop_last()) == 0);
    assert(placeholder_count(mark) == 1);
    assert(s =~= a + mark + b);
    lemma_placeholder_count_concat(a, mark);
    lemma_placeholder_count_concat(a + mark, b);
}

/// The three templates hold two, two more and one placeholder.
pub proof fn lemma_template_placeholders()
    ensures
        placeholder_count(search_template()) == 2,
        placeholder_count(filter_clauses()) == 2,
        placeholder_count(search_template() + filter_clauses()) == 4,
        placeholder_count(lookup_template()) == 1,
{
    reveal_strlit(
        "SELECT id, name, age, grade, active FROM users WHERE NAME LIKE $1 AND grade = $2",
    );
    reveal_strlit(" AND age=$3 AND active=$4");
    reveal_strlit("SELECT id, name, age, grade, active FROM users WHERE id = $1");
    lemma_placeholder_count_two(search_template(), 63, 78);
    lemma_placeholder_count_two(filter_clauses(), 9, 23);
    lemma_placeholder_count_one(lookup_template(), 58);
    lemma_placeholder_count_concat(search_template(), filter_clauses());
}

/// Every composed query binds one value for each placeholder: two without a
/// filter, four with one.
pub proof fn lemma_composed_query_consistent(key: KeyView, filters: Option<Filters>)
    ensures
        composed_query(key, filters).consistent(),
        composed_query(key, filters).params.len() == if filters is Some {
            4nat
        } else {
            2nat
        },
        placeholder_count(composed_query(key, filters).template) == if filters is Some {
            4nat
        } else {
            2nat
        },
{
    lemma_template_placeholders();
}

/// The lookup query binds one value for its one placeholder.
pub proof fn lemma_lookup_query_consistent(id: u128)
    ensures
        lookup_query_of(id).consistent(),
        lookup_query_of(id).params.len() == 1,
{
    lemma_template_placeholders();
}

/// Counts the placeholders of a template.
pub fn count_placeholders(template: &str) -> (count: usize)
    ensures
        count == placeholder_count(template@),
{
    let chars = chars_of(template);
    let mut count: usize = 0;
    let mut i: usize = 0;
    while i < chars.len()
        invariant
            i <= chars.len(),
            chars@ == template@,
            count <= i,
            count == placeholder_count(template@.take(i as int)),
        decreases chars.len() - i,
    {
        assert(template@.take(i + 1).drop_last() =~= template@.take(i as int));
        if chars[i] == PLACEHOLDER {
            count = count + 1;
        }
        i = i + 1;
    }
    assert(template@.take(i as int) =~= template@);
    count
}

impl QuerySpec {
    /// Whether the query binds one value for each placeholder of its
    /// template. A query that does not must not be run.
    pub fn is_consistent(&self) -> (consistent: bool)
        ensures
            consistent == self@.consistent(),
    {
        count_placeholders(self.template.as_str()) == self.params.len()
    }
}

/// Composes the search for the records whose name holds the name fragment
/// of the key and whose grade is that of the key and which, where there is a
/// filter, have its age and its active flag.
pub fn compose(key: &NameGrade<'_>, filters: &Option<Filters>) -> (query: QuerySpec)
    ensures
        query@ == composed_query(key@, *filters),
        query@.consistent(),
        query.params.len() == if filters is Some {
            4nat
        } else {
            2nat
        },
{
    let mut template = String::from_str(
        "SELECT id, name, age, grade, active FROM users WHERE NAME LIKE $1 AND grade = $2",
    );
    let mut pattern = String::from_str("%");
    pattern.append(key.name);
    pattern.append("%");
    let mut params: Vec<Param> = Vec::new();
    params.push(Param::Text(pattern));
    params.push(Param::Small(key.grade as i16));
    if let Some(filter) = filters {
        template.append(" AND age=$3 AND active=$4");
        params.push(Param::Small(filter.age as i16));
        params.push(Param::Flag(filter.active));
    }
    let query = QuerySpec { template, params };
    proof {
        lemma_composed_query_consistent(key@, *filters);
        assert(query@.params =~= composed_query(key@, *filters).params);
    }
    query
}

/// Composes the lookup of the record with the identifier `id`.
pub fn lookup_query(id: u128) -> (query: QuerySpec)
    ensures
        query@ == lookup_query_of(id),
        query@.consistent(),
{
    let template = String::from_str(
        "SELECT id, name, age, grade, active FROM users WHERE id = $1",
    );
    let mut params: Vec<Param> = Vec::new();
    params.push(Param::Id(id));
    let query = QuerySpec { template, params };
    proof {
        lemma_lookup_query_consistent(id);
        assert(query@.params =~= lookup_query_of(id).params);
    }
    query
}

} // verus!
