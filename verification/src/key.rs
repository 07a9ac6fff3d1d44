//! The composite key of a search: a name fragment and a grade, carried in one
//! path segment as `<name>_<grade>`.

use crate::text::{
    chars_of, decimal_text, is_digit, lemma_parsed_u8_of_decimal_text, parse_u8, parsed_u8,
};
use vstd::prelude::*;

verus! {

/// The character that parts the name fragment from the grade.
pub const DELIMITER: char = '_';

/// A decoded composite key. It borrows the name fragment from the path
/// segment that it was decoded from.
#[derive(Debug, Clone, Copy)]
pub struct NameGrade<'r> {
    pub name: &'r str,
    pub grade: u8,
}

/// What a composite key is, as plain values.
pub struct KeyView {
    pub name: Seq<char>,
    pub grade: u8,
}

impl KeyView {
    /// A decoded key has a name fragment that is not empty and holds no
    /// delimiter.
    pub open spec fn well_formed(self) -> bool {
        self.name.len() > 0 && delimiter_count(self.name) == 0
    }
}

impl<'r> View for NameGrade<'r> {
    type V = KeyView;

    open spec fn view(&self) -> KeyView {
        KeyView { name: self.name@, grade: self.grade }
    }
}

/// The failure of a path segment to decode into a composite key.
#[derive(Debug, Clone, Copy, PartialEq, Eq, Structural)]
pub struct MalformedKey;

impl MalformedKey {
    /// The text that reports the failure.
    pub open spec fn message_text() -> Seq<char> {
        "Error parsing user parameter"@
    }

    /// The text that reports the failure.
    pub fn message(&self) -> (text: &'static str)
        ensures
            text@ == Self::message_text(),
    {
        "Error parsing user parameter"
    }
}

/// The place of the first delimiter in `s`, or the length of `s` where it
/// holds none.
pub open spec fn first_delimiter(s: Seq<char>) -> int
    decreases s.len(),
{
    if s.len() == 0 {
        0
    } else if s[0] == DELIMITER {
        0
    } else {
        1 + first_delimiter(s.drop_first())
    }
}

/// How many delimiters `s` holds.
pub open spec fn delimiter_count(s: Seq<char>) -> nat
    decreases s.len(),
{
    if s.len() == 0 {
        0
    } else if s[0] == DELIMITER {
        1 + delimiter_count(s.drop_first())
    } else {
        delimiter_count(s.drop_first())
    }
}

/// What a path segment decodes to. The segment is cut at its first
/// delimiter: the part before it is the name fragment, which must not be
/// empty, and the part after it must read as a number from 0 to 255. A second
/// delimiter would stand in that part, which then reads as no number.
pub open spec fn decoded_key(token: Seq<char>) -> Option<KeyView> {
    let cut = first_delimiter(token);
    if 0 < cut < token.len() {
        match parsed_u8(token.subrange(cut + 1, token.len() as int)) {
            Some(grade) => Some(KeyView { name: token.subrange(0, cut), grade }),
            None => None,
        }
    } else {
        None
    }
}

/// The first delimiter is the place before which no delimiter stands and at
/// which, unless it is the end, one does.
pub proof fn lemma_first_delimiter_is(s: Seq<char>, cut: int)
    requires
        0 <= cut <= s.len(),
        forall|i: int| 0 <= i < cut ==> s[i] != DELIMITER,
        cut < s.len() ==> s[cut] == DELIMITER,
    ensures
        first_delimiter(s) == cut,
    decreases s.len(),
{
    if s.len() > 0 && cut > 0 {
        let rest = s.drop_first();
        assert forall|i: int| 0 <= i < cut - 1 implies rest[i] != DELIMITER by {
            assert(rest[i] == s[i + 1]);
        }
        lemma_first_delimiter_is(rest, cut - 1);
    }
}

/// The first delimiter lies within the text, nothing before it is a
/// delimiter, and it is one unless it is the end.
pub proof fn lemma_first_delimiter_found(s: Seq<char>)
    ensures
        0 <= first_delimiter(s) <= s.len(),
        forall|i: int| 0 <= i < first_delimiter(s) ==> s[i] != DELIMITER,
        first_delimiter(s) < s.len() ==> s[first_delimiter(s)] == DELIMITER,
    decreases s.len(),
{
    if s.len() > 0 && s[0] != DELIMITER {
        let rest = s.drop_first();
        lemma_first_delimiter_found(rest);
        assert forall|i: int| 0 <= i < first_delimiter(s) implies s[i] != DELIMITER by {
            if i > 0 {
                assert(s[i] == rest[i - 1]);
            }
        }
    }
}

/// A text without delimiters counts none, and the other way round.
pub proof fn lemma_delimiter_count_zero(s: Seq<char>)
    ensures
        delimiter_count(s) == 0 <==> forall|i: int| 0 <= i < s.len() ==> s[i] != DELIMITER,
    decreases s.len(),
{
    if s.len() > 0 {
        let rest = s.drop_first();
        lemma_delimiter_count_zero(rest);
        if delimiter_count(s) == 0 {
            assert forall|i: int| 0 <= i < s.len() implies s[i] != DELIMITER by {
                if i > 0 {
                    assert(s[i] == rest[i - 1]);
                }
            }
        } else if s[0] != DELIMITER {
            let i = choose|i: int| 0 <= i < rest.len() && rest[i] == DELIMITER;
            assert(s[i + 1] == DELIMITER);
        }
    }
}

/// The delimiters of a text are those up to its first one, which is one at
/// most, and those after it.
pub proof fn lemma_delimiter_count_split(s: Seq<char>)
    ensures
        first_delimiter(s) == s.len() ==> delimiter_count(s) == 0,
        first_delimiter(s) < s.len() ==> delimiter_count(s) == 1 + delimiter_count(
            s.subrange(first_delimiter(s) + 1, s.len() as int),
        ),
    decreases s.len(),
{
    lemma_first_delimiter_found(s);
    if s.len() > 0 {
        let rest = s.drop_first();
        if s[0] == DELIMITER {
            assert(s.subrange(1, s.len() as int) =~= rest);
        } else {
            lemma_delimiter_count_split(rest);
            let cut = first_delimiter(s);
            if cut < s.len() {
                assert(s.subrange(cut + 1, s.len() as int) =~= rest.subrange(
                    cut,
                    rest.len() as int,
                ));
            }
        }
    }
}

/// A text that reads as a number holds no delimiter.
pub proof fn lemma_number_has_no_delimiter(s: Seq<char>)
    requires
        parsed_u8(s) is Some,
    ensures
        delimiter_count(s) == 0,
{
    lemma_delimiter_count_zero(s);
    let digits = if s.len() > 0 && s[0] == '+' {
        s.drop_first()
    } else {
        s
    };
    assert forall|i: int| 0 <= i < s.len() implies s[i] != DELIMITER by {
        if s[0] == '+' {
            if i > 0 {
                assert(is_digit(digits[i - 1]));
            }
        } else {
            assert(is_digit(digits[i]));
        }
    }
}

/// A name fragment that is not empty and holds no delimiter, then the
/// delimiter, then the decimal text of a grade, decodes to that name and
/// that grade.
pub proof fn lemma_decodes_name_and_grade(name: Seq<char>, grade: u8)
    requires
        name.len() > 0,
        delimiter_count(name) == 0,
    ensures
        decoded_key(name + seq![DELIMITER] + decimal_text(grade as nat)) == Some(
            KeyView { name, grade },
        ),
{
    lemma_parsed_u8_of_decimal_text(grade);
    lemma_decodes_name_and_number(name, decimal_text(grade as nat));
}

/// A name fragment that is not empty and holds no delimiter, then the
/// delimiter, then any text that reads as a number from 0 to 255, decodes to
/// that name and that number.
pub proof fn lemma_decodes_name_and_number(name: Seq<char>, number: Seq<char>)
    requires
        name.len() > 0,
        delimiter_count(name) == 0,
        parsed_u8(number) is Some,
    ensures
        decoded_key(name + seq![DELIMITER] + number) == Some(
            KeyView { name, grade: parsed_u8(number)->0 },
        ),
{
    let token = name + seq![DELIMITER] + number;
    lemma_delimiter_count_zero(name);
    assert forall|i: int| 0 <= i < name.len() implies token[i] != DELIMITER by {
        assert(token[i] == name[i]);
    }
    lemma_first_delimiter_is(token, name.len() as int);
    assert(token.subrange(0, name.len() as int) =~= name);
    assert(token.subrange(name.len() as int + 1, token.len() as int) =~= number);
}

/// What a path segment decodes to is a well-formed key, and the segment is
/// its name fragment, the delimiter and a text that reads as its grade.
pub proof fn lemma_decoded_key_parts(token: Seq<char>)
    requires
        decoded_key(token) is Some,
    ensures
        decoded_key(token)->0.well_formed(),
        delimiter_count(token) == 1,
        exists|number: Seq<char>|
            token == decoded_key(token)->0.name + seq![DELIMITER] + number && parsed_u8(number)
                == Some(decoded_key(token)->0.grade),
{
    let cut = first_delimiter(token);
    let name = token.subrange(0, cut);
    let number = token.subrange(cut + 1, token.len() as int);
    lemma_first_delimiter_found(token);
    lemma_delimiter_count_zero(name);
    lemma_delimiter_count_split(token);
    lemma_number_has_no_delimiter(number);
    assert(token =~= name + seq![DELIMITER] + number);
}

/// A path segment that does not hold exactly one delimiter decodes to
/// nothing.
pub proof fn lemma_rejects_delimiter_count(token: Seq<char>)
    requires
        delimiter_count(token) != 1,
    ensures
        decoded_key(token) is None,
{
    lemma_delimiter_count_split(token);
    let cut = first_delimiter(token);
    if 0 < cut < token.len() {
        let rest = token.subrange(cut + 1, token.len() as int);
        if parsed_u8(rest) is Some {
            lemma_number_has_no_delimiter(rest);
        }
    }
}

/// A path segment whose part after the delimiter reads as no number from 0
/// to 255, or whose part before it is empty, decodes to nothing.
pub proof fn lemma_rejects_bad_part(name: Seq<char>, number: Seq<char>)
    requires
        delimiter_count(name) == 0,
        name.len() == 0 || parsed_u8(number) is None,
    ensures
        decoded_key(name + seq![DELIMITER] + number) is None,
{
    let token = name + seq![DELIMITER] + number;
    lemma_delimiter_count_zero(name);
    assert forall|i: int| 0 <= i < name.len() implies token[i] != DELIMITER by {
        assert(token[i] == name[i]);
    }
    lemma_first_delimiter_is(token, name.len() as int);
    assert(token.subrange(name.len() as int + 1, token.len() as int) =~= number);
}

impl<'r> NameGrade<'r> {
    /// Decodes a path segment of the form `<name>_<grade>`.
    pub fn from_param(param: &'r str) -> (decoded: Result<NameGrade<'r>, MalformedKey>)
        ensures
            match decoded_key(param@) {
                Some(key) => decoded is Ok && decoded->Ok_0@ == key,
                None => decoded is Err,
            },
            decoded is Ok ==> decoded->Ok_0@.well_formed(),
    {
        let chars = chars_of(param);
        let mut cut: usize = 0;
        while cut < chars.len() && chars[cut] != DELIMITER
            invariant
                cut <= chars.len(),
                forall|i: int| 0 <= i < cut ==> chars@[i] != DELIMITER,
            decreases chars.len() - cut,
        {
            cut = cut + 1;
        }
        proof {
            lemma_first_delimiter_is(param@, cut as int);
            if decoded_key(param@) is Some {
                lemma_decoded_key_parts(param@);
            }
        }
        if cut == 0 || cut == chars.len() {
            return Err(MalformedKey);
        }
        let number = param.substring_char(cut + 1, chars.len());
        match parse_u8(number) {
            Some(grade) => Ok(NameGrade { name: param.substring_char(0, cut), grade }),
            None => Err(MalformedKey),
        }
    }
}

} // verus!
