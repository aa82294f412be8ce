//! A user, as a second sample record.

use vstd::prelude::*;
use vstd::std_specs::cmp::PartialEqSpecImpl;
use vstd::string::*;

verus! {

/// A user's gender.
#[derive(Debug, Clone, Copy, PartialEq, Eq, Structural)]
pub enum Gender {
    Boy,
    Girl,
}

/// A user.
#[derive(Debug)]
pub struct User {
    pub name: String,
    pub age: u8,
    pub gender: Gender,
}

impl User {
    /// A user with the given fields.
    pub fn new(name: String, age: u8, gender: Gender) -> (user: User)
        ensures
            user.name == name,
            user.age == age,
            user.gender == gender,
    {
        User { name, age, gender }
    }
}

impl Default for User {
    /// The user that stands for nobody in particular.
    fn default() -> (user: User)
        ensures
            user.name@ == "Unknown User"@,
            user.age == 0,
            user.gender == Gender::Boy,
    {
        User::new(String::from_str("Unknown User"), 0, Gender::Boy)
    }
}

impl PartialEq for User {
    /// Two users are equal when all their fields are.
    fn eq(&self, other: &User) -> (equal: bool) {
        self.name == other.name && self.age == other.age && self.gender == other.gender
    }
}

impl PartialEqSpecImpl for User {
    open spec fn obeys_eq_spec() -> bool {
        true
    }

    open spec fn eq_spec(&self, other: &User) -> bool {
        self.name@ == other.name@ && self.age == other.age && self.gender == other.gender
    }
}

} // verus!
