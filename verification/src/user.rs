//! User records and their textual rendering.

use crate::ident::{identifier_text, write_identifier};
use crate::text::{i16_to_text, signed_decimal_text};
use vstd::prelude::*;

verus! {

/// One record of the user table. Records belong to the store; the service
/// reads them and never changes them.
#[derive(Debug)]
pub struct User {
    pub id: u128,
    pub name: String,
    pub age: i16,
    pub grade: i16,
    pub active: bool,
}

/// What a user record is, as plain values.
pub struct UserView {
    pub id: u128,
    pub name: Seq<char>,
    pub age: i16,
    pub grade: i16,
    pub active: bool,
}

impl View for User {
    type V = UserView;

    open spec fn view(&self) -> UserView {
        UserView {
            id: self.id,
            name: self.name@,
            age: self.age,
            grade: self.grade,
            active: self.active,
        }
    }
}

/// The views of a list of records, in order.
pub open spec fn views_of(users: Seq<User>) -> Seq<UserView> {
    users.map_values(|u: User| u@)
}

/// A text as a quoted literal, the way `std` writes a `str` with `{:?}`.
pub uninterp spec fn quoted_text(s: Seq<char>) -> Seq<char>;

/// Writes a text as a quoted literal with the `Debug` formatting of `str`.
/// The contract claims only that the outcome is a function of the characters
/// of the text.
#[verifier::external_body]
pub(crate) fn quote(s: &str) -> (text: String)
    ensures
        text@ == quoted_text(s@),
{
    format!("{:?}", s)
}

/// The text of a flag.
pub open spec fn flag_text(flag: bool) -> Seq<char> {
    if flag {
        "true"@
    } else {
        "false"@
    }
}

/// The text of a record, given the text of its identifier and its name as a
/// quoted literal: the name of the type and, in braces, each field by its
/// name, with the numbers in decimal.
pub open spec fn record_text(
    id: Seq<char>,
    name: Seq<char>,
    age: int,
    grade: int,
    active: bool,
) -> Seq<char> {
    "User { id: "@ + id + ", name: "@ + name + ", age: "@ + signed_decimal_text(age)
        + ", grade: "@ + signed_decimal_text(grade) + ", active: "@ + flag_text(active) + " }"@
}

/// The text of a record, with the identifier in its canonical form and the
/// name as a quoted literal.
pub open spec fn user_text(user: UserView) -> Seq<char> {
    record_text(
        identifier_text(user.id),
        quoted_text(user.name),
        user.age as int,
        user.grade as int,
        user.active,
    )
}

/// The texts of a list of records, with a comma between each two.
pub open spec fn users_text(users: Seq<UserView>) -> Seq<char>
    decreases users.len(),
{
    if users.len() == 0 {
        Seq::empty()
    } else if users.len() == 1 {
        user_text(users[0])
    } else {
        users_text(users.drop_last()) + ","@ + user_text(users.last())
    }
}

/// Writes the text of a record from the text of its identifier, its name as
/// a quoted literal, and its other fields.
pub fn write_record(id: &str, name: &str, age: i16, grade: i16, active: bool) -> (text: String)
    ensures
        text@ == record_text(id@, name@, age as int, grade as int, active),
{
    let mut text = String::from_str("User { id: ");
    text.append(id);
    text.append(", name: ");
    text.append(name);
    text.append(", age: ");
    let age_text = i16_to_text(age);
    text.append(age_text.as_str());
    text.append(", grade: ");
    let grade_text = i16_to_text(grade);
    text.append(grade_text.as_str());
    text.append(", active: ");
    if active {
        text.append("true");
    } else {
        text.append("false");
    }
    text.append(" }");
    text
}

impl User {
    /// The text of the record.
    pub fn render(&self) -> (text: String)
        ensures
            text@ == user_text(self@),
    {
        let id = write_identifier(self.id);
        let name = quote(self.name.as_str());
        write_record(id.as_str(), name.as_str(), self.age, self.grade, self.active)
    }

    /// A copy of the record.
    pub fn duplicate(&self) -> (copy: User)
        ensures
            copy@ == self@,
    {
        User {
            id: self.id,
            name: self.name.clone(),
            age: self.age,
            grade: self.grade,
            active: self.active,
        }
    }
}

/// The texts of the records, with a comma between each two.
pub fn render_users(users: &Vec<User>) -> (text: String)
    ensures
        text@ == users_text(views_of(users@)),
{
    let mut text = String::new();
    let mut i: usize = 0;
    while i < users.len()
        invariant
            i <= users.len(),
            text@ == users_text(views_of(users@).take(i as int)),
        decreases users.len() - i,
    {
        let ghost before = views_of(users@).take(i as int);
        let ghost after = views_of(users@).take(i + 1);
        assert(after.drop_last() =~= before);
        assert(after.last() == users@[i as int]@);
        if i > 0 {
            text.append(",");
        }
        let one = users[i].render();
        text.append(one.as_str());
        assert(text@ =~= users_text(after));
        i = i + 1;
    }
    assert(views_of(users@).take(i as int) =~= views_of(users@));
    text
}

} // verus!
