//! The identifier types: named states and named events, equal exactly
//! when their names are.

use vstd::prelude::*;

verus! {

/// A named node in the machine's state space.
///
/// A `State` is an immutable value type: it wraps a name and compares
/// equal to another `State` exactly when the names are equal. Its view
/// is the name, as a sequence of characters.
#[derive(Debug)]
pub struct State {
    name: String,
}

impl View for State {
    type V = Seq<char>;

    closed spec fn view(&self) -> Seq<char> {
        self.name@
    }
}

impl State {
    /// Create a new state with the given name.
    pub fn new(name: &str) -> (state: Self)
        ensures
            state@ == name@,
    {
        State { name: name.to_owned() }
    }

    /// The state's name.
    pub fn name(&self) -> (name: &str)
        ensures
            name@ == self@,
    {
        self.name.as_str()
    }
}

impl Clone for State {
    fn clone(&self) -> (other: Self)
        ensures
            other@ == self@,
    {
        State { name: self.name.clone() }
    }
}

impl PartialEq for State {
    fn eq(&self, other: &Self) -> (r: bool) {
        self.name == other.name
    }
}

impl Eq for State {
}

impl vstd::std_specs::cmp::PartialEqSpecImpl for State {
    open spec fn obeys_eq_spec() -> bool {
        true
    }

    open spec fn eq_spec(&self, other: &Self) -> bool {
        self@ == other@
    }
}

/// A named trigger presented to the machine for dispatch.
///
/// An `Event` is an immutable value type: it wraps a name and compares
/// equal to another `Event` exactly when the names are equal. Its view
/// is the name, as a sequence of characters.
#[derive(Debug)]
pub struct Event {
    name: String,
}

impl View for Event {
    type V = Seq<char>;

    closed spec fn view(&self) -> Seq<char> {
        self.name@
    }
}

impl Event {
    /// Create a new event with the given name.
    pub fn new(name: &str) -> (event: Self)
        ensures
            event@ == name@,
    {
        Event { name: name.to_owned() }
    }

    /// The event's name.
    pub fn name(&self) -> (name: &str)
        ensures
            name@ == self@,
    {
        self.name.as_str()
    }
}

impl Clone for Event {
    fn clone(&self) -> (other: Self)
        ensures
            other@ == self@,
    {
        Event { name: self.name.clone() }
    }
}

impl PartialEq for Event {
    fn eq(&self, other: &Self) -> (r: bool) {
        self.name == other.name
    }
}

impl Eq for Event {
}

impl vstd::std_specs::cmp::PartialEqSpecImpl for Event {
    open spec fn obeys_eq_spec() -> bool {
        true
    }

    open spec fn eq_spec(&self, other: &Self) -> bool {
        self@ == other@
    }
}

} // verus!
