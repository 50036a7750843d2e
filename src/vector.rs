//! Addresses of two families behind one trait.
use vstd::prelude::*;

verus! {

#[derive(Clone, Copy, Debug, PartialEq, Eq, Structural)]
pub enum IpFamily {
    V4,
    V6,
}

pub trait IpAddr {
    spec fn family_spec(&self) -> IpFamily;

    spec fn address_spec(&self) -> Seq<char>;

    /// The family and the address text, for the caller to show.
    fn display(&self) -> (r: (IpFamily, &String))
        ensures
            r.0 == self.family_spec(),
            r.1@ == self.address_spec(),
    ;
}

pub struct V4(pub String);

pub struct V6(pub String);

impl IpAddr for V4 {
    open spec fn family_spec(&self) -> IpFamily {
        IpFamily::V4
    }

    open spec fn address_spec(&self) -> Seq<char> {
        self.0@
    }

    fn display(&self) -> (r: (IpFamily, &String)) {
        (IpFamily::V4, &self.0)
    }
}

impl IpAddr for V6 {
    open spec fn family_spec(&self) -> IpFamily {
        IpFamily::V6
    }

    open spec fn address_spec(&self) -> Seq<char> {
        self.0@
    }

    fn display(&self) -> (r: (IpFamily, &String)) {
        (IpFamily::V6, &self.0)
    }
}

} // verus!
