use vstd::prelude::*;

verus! {

/// A person, known by name and age.
pub struct People {
    pub name: String,
    pub age: u8,
}

impl People {
    /// Builds a person from a name and an age.
    pub fn new(name: String, age: u8) -> (r: People)
        ensures
            r.name@ == name@,
            r.age == age,
    {
        People { name, age }
    }

    /// A person is an adult from the age of eighteen on.
    pub fn is_adult(&self) -> (r: bool)
        ensures
            r == (self.age >= 18),
    {
        self.age >= 18
    }
}

} // verus!
