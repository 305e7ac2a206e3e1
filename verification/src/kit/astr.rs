//! A shared, immutable string used for identifiers.
use vstd::prelude::*;

verus! {

/// An immutable string (user, room and stream identifiers).
#[derive(Debug, PartialEq, Eq, Hash)]
pub struct AStr(String);

impl Clone for AStr {
    /// A copy with the same characters.
    fn clone(&self) -> (r: AStr)
        ensures
            r@ == self@,
    {
        AStr(self.0.clone())
    }
}

impl View for AStr {
    type V = Seq<char>;

    closed spec fn view(&self) -> Seq<char> {
        self.0@
    }
}

impl AStr {
    pub fn as_str(&self) -> (r: &str)
        ensures
            r@ == self@,
    {
        self.0.as_str()
    }

    /// A copy of the characters as an owned `String`.
    pub fn to_string(&self) -> (r: String)
        ensures
            r@ == self@,
    {
        self.0.clone()
    }

    /// An identical copy.
    pub fn copy(&self) -> (r: AStr)
        ensures
            r@ == self@,
    {
        AStr(self.0.clone())
    }
}

impl From<String> for AStr {
    fn from(value: String) -> (r: AStr)
        ensures
            r@ == value@,
    {
        AStr(value)
    }
}

impl vstd::std_specs::convert::FromSpecImpl<String> for AStr {
    open spec fn obeys_from_spec() -> bool {
        true
    }

    closed spec fn from_spec(v: String) -> AStr {
        AStr(v)
    }
}

impl AStr {
    /// An identifier holding the characters of `s`.
    pub fn from_str(s: &str) -> (r: AStr)
        ensures
            r@ == s@,
    {
        AStr(s.to_owned())
    }

    /// An identifier holding the characters of `s`.
    pub fn from_string(s: String) -> (r: AStr)
        ensures
            r@ == s@,
    {
        AStr(s)
    }
}

} // verus!
