//! Identities: the parties of a pool and the asset it collects.

use vstd::prelude::*;

verus! {

/// An identity, known by its textual name. Two principals are the same party
/// exactly when their names are equal.
#[derive(Debug, PartialEq, Eq)]
pub struct Principal {
    name: String,
}

impl View for Principal {
    type V = Seq<char>;

    closed spec fn view(&self) -> Seq<char> {
        self.name@
    }
}

impl Principal {
    /// The principal named `name`.
    pub fn new(name: String) -> (p: Principal)
        ensures
            p@ == name@,
    {
        Principal { name }
    }

    /// The principal named by the text `name`.
    pub fn from_text(name: &str) -> (p: Principal)
        ensures
            p@ == name@,
    {
        Principal { name: name.to_owned() }
    }

    /// The principal's name.
    pub fn name(&self) -> (name: &String)
        ensures
            name@ == self@,
    {
        &self.name
    }

    /// Whether `self` and `other` are the same party.
    pub fn same_as(&self, other: &Principal) -> (same: bool)
        ensures
            same == (self@ == other@),
    {
        self.name == other.name
    }
}

impl Clone for Principal {
    fn clone(&self) -> (p: Principal)
        ensures
            p == *self,
    {
        Principal { name: self.name.clone() }
    }
}

} // verus!
