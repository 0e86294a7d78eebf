//! Account and contract addresses, held as their textual strkey form.
use vstd::prelude::*;

verus! {

/// An account or contract address, held as its strkey (the `G...`/`C...`
/// text form). Two addresses denote the same party exactly when their
/// strkeys are equal, so the view of an address is its strkey.
#[derive(Debug, PartialEq, Eq)]
pub struct Address {
    pub strkey: String,
}

impl View for Address {
    type V = Seq<char>;

    open spec fn view(&self) -> Seq<char> {
        self.strkey@
    }
}

impl Address {
    /// The address whose strkey is `strkey`.
    pub fn new(strkey: String) -> (a: Address)
        ensures
            a.strkey == strkey,
            a@ == strkey@,
    {
        Address { strkey }
    }

    /// Whether `self` and `other` denote the same party.
    pub fn same_as(&self, other: &Address) -> (r: bool)
        ensures
            r == (self@ == other@),
    {
        self.strkey == other.strkey
    }
}

impl Clone for Address {
    fn clone(&self) -> (r: Self)
        ensures
            r == *self,
    {
        Address { strkey: self.strkey.clone() }
    }
}

} // verus!
