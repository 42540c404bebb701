use vstd::prelude::*;

verus! {

/// An opaque identity: who owns a project, who made a donation.
///
/// Two addresses denote the same identity exactly when their keys are equal.
/// Whether an address really stands behind a call is decided by whoever embeds
/// the marketplace; the marketplace only compares.
#[derive(Debug, PartialEq, Eq)]
pub struct Address {
    key: String,
}

impl View for Address {
    type V = Seq<char>;

    closed spec fn view(&self) -> Seq<char> {
        self.key@
    }
}

impl Address {
    /// The address with the given key.
    pub fn new(key: &str) -> (a: Address)
        ensures
            a@ == key@,
    {
        Address { key: key.to_owned() }
    }

    /// The key of the address.
    pub fn as_str(&self) -> (key: &str)
        ensures
            key@ == self@,
    {
        self.key.as_str()
    }

    /// Whether both addresses denote the same identity.
    pub fn same(&self, other: &Address) -> (r: bool)
        ensures
            r == (self@ == other@),
    {
        self.key == other.key
    }
}

impl Clone for Address {
    fn clone(&self) -> (a: Address)
        ensures
            a@ == self@,
    {
        Address { key: self.key.clone() }
    }
}

} // verus!
