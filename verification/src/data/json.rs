//! A sample record, and the line that a JSON text is stored as.

use vstd::prelude::*;
use vstd::std_specs::cmp::PartialEqSpecImpl;
use vstd::string::*;

verus! {

/// A student, as an example of a record.
#[derive(Debug)]
pub struct Student {
    name: String,
    age: u8,
    address: String,
    locked: bool,
    sex: char,
}

/// A [`Student`] with its texts as sequences of characters.
pub struct StudentView {
    pub name: Seq<char>,
    pub age: u8,
    pub address: Seq<char>,
    pub locked: bool,
    pub sex: char,
}

impl View for Student {
    type V = StudentView;

    closed spec fn view(&self) -> StudentView {
        StudentView {
            name: self.name@,
            age: self.age,
            address: self.address@,
            locked: self.locked,
            sex: self.sex,
        }
    }
}

impl Student {
    /// A student with the given fields.
    pub fn new(name: String, age: u8, address: String, locked: bool, sex: char) -> (student:
        Student)
        ensures
            student@ == (StudentView { name: name@, age, address: address@, locked, sex }),
    {
        Student { name, age, address, locked, sex }
    }

    /// The student's name.
    pub fn name(&self) -> (name: &str)
        ensures
            name@ == self@.name,
    {
        self.name.as_str()
    }

    /// The student's age in years.
    pub fn age(&self) -> (age: u8)
        ensures
            age == self@.age,
    {
        self.age
    }

    /// Where the student lives.
    pub fn address(&self) -> (address: &str)
        ensures
            address@ == self@.address,
    {
        self.address.as_str()
    }

    /// Whether the student's account is locked.
    pub fn locked(&self) -> (locked: bool)
        ensures
            locked == self@.locked,
    {
        self.locked
    }

    /// The student's sex, as one character.
    pub fn sex(&self) -> (sex: char)
        ensures
            sex == self@.sex,
    {
        self.sex
    }
}

impl Default for Student {
    /// The sample student.
    fn default() -> (student: Student)
        ensures
            student@ == (StudentView {
                name: "满城雪"@,
                age: 23,
                address: "广州"@,
                locked: true,
                sex: '男',
            }),
    {
        Student::new(String::from_str("满城雪"), 23, String::from_str("广州"), true, '男')
    }
}

impl PartialEq for Student {
    /// Two students are equal when all their fields are.
    fn eq(&self, other: &Student) -> (equal: bool) {
        self.name == other.name && self.age == other.age && self.address == other.address
            && self.locked == other.locked && self.sex == other.sex
    }
}

impl PartialEqSpecImpl for Student {
    open spec fn obeys_eq_spec() -> bool {
        true
    }

    open spec fn eq_spec(&self, other: &Student) -> bool {
        self@ == other@
    }
}

/// The line that a JSON text is stored as: the text followed by one line
/// feed.
pub open spec fn json_line_of(json: Seq<char>) -> Seq<char> {
    json.push('\n')
}

/// What to append to a file of records for a record whose JSON form is
/// `json`, and the count to report for it: the length of `json` in bytes,
/// the line feed not counted.
pub fn json_line(json: &str) -> (entry: (String, usize))
    ensures
        entry.0@ == json_line_of(json@),
        entry.1 == json.len(),
{
    proof {
        reveal_strlit("\n");
        assert("\n"@ =~= seq!['\n']);
    }
    (String::from_str(json).concat("\n"), json.len())
}

} // verus!
