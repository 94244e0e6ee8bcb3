//! The name of a component kind: the key under which handlers are registered.

use vstd::prelude::*;

verus! {

/// The fully qualified name of a component kind.
///
/// Two names are the same key exactly when their characters are the same:
/// lookups never match on a prefix, a suffix or a short form.
#[derive(Debug)]
pub struct ComponentName {
    name: String,
}

impl View for ComponentName {
    type V = Seq<char>;

    closed spec fn view(&self) -> Seq<char> {
        self.name@
    }
}

impl ComponentName {
    /// The name made of the characters of `name`.
    pub fn new(name: &str) -> (r: Self)
        ensures
            r@ == name@,
    {
        ComponentName { name: name.to_owned() }
    }

    /// The characters of the name.
    pub fn as_str(&self) -> (s: &str)
        ensures
            s@ == self@,
    {
        self.name.as_str()
    }

    /// Whether `self` and `other` name the same component kind.
    pub fn same_as(&self, other: &ComponentName) -> (b: bool)
        ensures
            b == (self@ == other@),
    {
        self.name == other.name
    }
}

impl Clone for ComponentName {
    fn clone(&self) -> (r: Self)
        ensures
            r@ == self@,
    {
        ComponentName { name: self.name.clone() }
    }
}

} // verus!
