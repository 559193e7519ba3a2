//! A record with a closed schema: a name, an age fixed at construction, and
//! an email that is absent until explicitly set.

use vstd::prelude::*;

verus! {

/// The mathematical view of a [`Person`]: its fields as plain values.
pub struct PersonView {
    pub name: Seq<char>,
    pub age: u32,
    pub email: Option<Seq<char>>,
}

/// A fixed-schema record. The field set is closed: only the declared
/// attributes exist, and only `email` can change after construction.
#[derive(Debug, Clone, PartialEq)]
pub struct Person {
    name: String,
    age: u32,
    email: Option<String>,
}

impl View for Person {
    type V = PersonView;

    closed spec fn view(&self) -> PersonView {
        PersonView {
            name: self.name@,
            age: self.age,
            email: match self.email {
                Some(e) => Some(e@),
                None => None,
            },
        }
    }
}

/// Whether a record with view `v` may vote: its age is at least 18.
pub open spec fn can_vote_spec(v: PersonView) -> bool {
    v.age >= 18
}

impl Person {
    /// Constructs a record with the given name and age and no email.
    pub fn new(name: String, age: u32) -> (r: Person)
        ensures
            r@ == (PersonView { name: name@, age, email: None }),
    {
        Person { name, age, email: None }
    }

    /// Replaces the email with the given text; name and age are untouched.
    pub fn set_email(&mut self, email: String)
        ensures
            final(self)@ == (PersonView {
                name: old(self)@.name,
                age: old(self)@.age,
                email: Some(email@),
            }),
    {
        self.email = Some(email);
    }

    /// Returns whether this record may vote.
    pub fn can_vote(&self) -> (r: bool)
        ensures
            r == can_vote_spec(self@),
    {
        self.age >= 18
    }

    /// Read-only access to the email attribute.
    pub fn email(&self) -> (r: &Option<String>)
        ensures
            self@.email is Some <==> r is Some,
            r matches Some(e) ==> self@.email == Some(e@),
    {
        &self.email
    }
}

/// A freshly constructed record can vote exactly when its age is at
/// least 18, for every name and age.
pub proof fn lemma_new_can_vote(name: Seq<char>, age: u32)
    ensures
        can_vote_spec((PersonView { name, age, email: None })) == (age >= 18),
{
}

} // verus!
