//! The optional filter of a search: an exact age and an exact active flag,
//! read from the query string fields `age` and `active`.
//!
//! A field that is present and does not read as a value of its kind makes
//! the request malformed. Where both fields are present and read, they make
//! a filter. Where one or both are absent, and what is present reads, the
//! search is not filtered: half a filter is no filter.

use crate::text::{chars_of, parse_u8, parsed_u8};
use vstd::prelude::*;

verus! {

/// The two exact-match predicates that narrow a search.
#[derive(Debug, Clone, Copy, PartialEq, Eq, Structural)]
pub struct Filters {
    pub age: u8,
    pub active: bool,
}

/// The failure of a query string field to read as a value of its kind.
#[derive(Debug, Clone, Copy, PartialEq, Eq, Structural)]
pub struct MalformedFilter;

/// `c` in lower case, where it is an upper case letter of the Latin
/// alphabet; `c` itself otherwise.
pub open spec fn lowered(c: char) -> char {
    if 'A' <= c && c <= 'Z' {
        ((c as int) + 32) as char
    } else {
        c
    }
}

/// Whether `s` is `word`, a word written in lower case, in any mix of upper
/// and lower case.
pub open spec fn spells(s: Seq<char>, word: Seq<char>) -> bool {
    &&& s.len() == word.len()
    &&& forall|i: int| 0 <= i < s.len() ==> lowered(#[trigger] s[i]) == word[i]
}

/// What a field reads as a flag. `off`, `no` and `false` read as false;
/// `on`, `yes`, `true` and the empty text read as true; upper and lower case
/// are the same. Anything else reads as no flag.
pub open spec fn parsed_flag(s: Seq<char>) -> Option<bool> {
    if spells(s, seq!['o', 'f', 'f']) || spells(s, seq!['n', 'o']) || spells(
        s,
        seq!['f', 'a', 'l', 's', 'e'],
    ) {
        Some(false)
    } else if s.len() == 0 || spells(s, seq!['o', 'n']) || spells(s, seq!['y', 'e', 's'])
        || spells(s, seq!['t', 'r', 'u', 'e']) {
        Some(true)
    } else {
        None
    }
}

/// What the two fields make: `Err` where a present field does not read,
/// a filter where both are present and read, no filter otherwise.
pub open spec fn extracted_filters(age: Option<Seq<char>>, active: Option<Seq<char>>) -> Result<
    Option<Filters>,
    MalformedFilter,
> {
    if age is Some && parsed_u8(age->0) is None {
        Err(MalformedFilter)
    } else if active is Some && parsed_flag(active->0) is None {
        Err(MalformedFilter)
    } else if age is Some && active is Some {
        Ok(Some(Filters { age: parsed_u8(age->0)->0, active: parsed_flag(active->0)->0 }))
    } else {
        Ok(None)
    }
}

/// The view of an optional string.
pub open spec fn field_text(field: Option<&str>) -> Option<Seq<char>> {
    match field {
        Some(s) => Some(s@),
        None => None,
    }
}

/// `c` in lower case, where it is an upper case letter of the Latin alphabet.
fn lower(c: char) -> (l: char)
    ensures
        l == lowered(c),
{
    if c >= 'A' && c <= 'Z' {
        let code: u8 = c as u8;
        (code + 32) as char
    } else {
        c
    }
}

/// Whether `chars` is `word`, a word written in lower case, in any mix of
/// upper and lower case.
fn spells_word(chars: &Vec<char>, word: &str) -> (same: bool)
    ensures
        same == spells(chars@, word@),
{
    let letters = chars_of(word);
    if chars.len() != letters.len() {
        return false;
    }
    let mut i: usize = 0;
    while i < chars.len()
        invariant
            i <= chars.len(),
            chars.len() == letters.len(),
            letters@ == word@,
            forall|j: int| 0 <= j < i ==> lowered(#[trigger] chars@[j]) == letters@[j],
        decreases chars.len() - i,
    {
        if lower(chars[i]) != letters[i] {
            return false;
        }
        i = i + 1;
    }
    true
}

/// Reads a flag: `off`, `no`, `false`, `on`, `yes`, `true` in any mix of
/// upper and lower case, or the empty text, which reads as true.
pub fn parse_flag(s: &str) -> (flag: Option<bool>)
    ensures
        flag == parsed_flag(s@),
{
    let chars = chars_of(s);
    proof {
        reveal_strlit("off");
        reveal_strlit("no");
        reveal_strlit("false");
        reveal_strlit("on");
        reveal_strlit("yes");
        reveal_strlit("true");
        assert("off"@ =~= seq!['o', 'f', 'f']);
        assert("no"@ =~= seq!['n', 'o']);
        assert("false"@ =~= seq!['f', 'a', 'l', 's', 'e']);
        assert("on"@ =~= seq!['o', 'n']);
        assert("yes"@ =~= seq!['y', 'e', 's']);
        assert("true"@ =~= seq!['t', 'r', 'u', 'e']);
    }
    if spells_word(&chars, "off") || spells_word(&chars, "no") || spells_word(&chars, "false") {
        Some(false)
    } else if chars.len() == 0 || spells_word(&chars, "on") || spells_word(&chars, "yes")
        || spells_word(&chars, "true") {
        Some(true)
    } else {
        None
    }
}

/// Reads the optional filter from the query string fields `age` and
/// `active`, each given as it stands in the query string, or `None` where
/// the query string does not hold it.
pub fn extract_filters(age: Option<&str>, active: Option<&str>) -> (filters: Result<
    Option<Filters>,
    MalformedFilter,
>)
    ensures
        filters == extracted_filters(field_text(age), field_text(active)),
        age is None && active is None ==> filters == Ok::<Option<Filters>, MalformedFilter>(None),
        age is Some && active is Some && parsed_u8(age->0@) is Some && parsed_flag(active->0@)
            is Some ==> filters == Ok::<Option<Filters>, MalformedFilter>(
            Some(Filters { age: parsed_u8(age->0@)->0, active: parsed_flag(active->0@)->0 }),
        ),
        (age is Some && parsed_u8(age->0@) is None) || (active is Some && parsed_flag(active->0@)
            is None) ==> filters == Err::<Option<Filters>, MalformedFilter>(MalformedFilter),
{
    let age_value: Option<u8> = match age {
        Some(text) => match parse_u8(text) {
            Some(value) => Some(value),
            None => {
                return Err(MalformedFilter);
            },
        },
        None => None,
    };
    let active_value: Option<bool> = match active {
        Some(text) => match parse_flag(text) {
            Some(value) => Some(value),
            None => {
                return Err(MalformedFilter);
            },
        },
        None => None,
    };
    match (age_value, active_value) {
        (Some(age), Some(active)) => Ok(Some(Filters { age, active })),
        _ => Ok(None),
    }
}

} // verus!
