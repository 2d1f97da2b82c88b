//! Network addresses.

use std::collections::HashSet;
use vstd::prelude::*;

verus! {

broadcast use vstd::std_specs::hash::group_hash_axioms;

/// An IP address: the bits of its octets, the first octet highest.
#[derive(Debug, Clone, Copy, PartialEq, Eq, Structural)]
pub enum IpAddr {
    V4(u32),
    V6(u128),
}

/// The bits of the loopback address 127.0.0.1.
pub const LOOPBACK_V4: u32 = 0x7f00_0001;

/// An address to listen on.
#[derive(Debug, Clone, Copy, PartialEq, Eq, Structural)]
pub struct SocketAddr {
    pub ip: IpAddr,
    pub port: u16,
}

/// A set of addresses. Looking one up takes the same time however many there are.
#[derive(Debug)]
pub struct IpSet {
    v4: HashSet<u32>,
    v6: HashSet<u128>,
}

impl View for IpSet {
    type V = Set<IpAddr>;

    closed spec fn view(&self) -> Set<IpAddr> {
        Set::new(
            |ip: IpAddr|
                match ip {
                    IpAddr::V4(bits) => self.v4@.contains(bits),
                    IpAddr::V6(bits) => self.v6@.contains(bits),
                },
        )
    }
}

impl IpSet {
    /// The empty set.
    pub fn new() -> (set: IpSet)
        ensures
            set@ == Set::<IpAddr>::empty(),
    {
        let set = IpSet { v4: HashSet::new(), v6: HashSet::new() };
        assert(set@ =~= Set::<IpAddr>::empty());
        set
    }

    /// Adds an address, and says whether it is new.
    pub fn insert(&mut self, ip: IpAddr) -> (new: bool)
        ensures
            final(self)@ == old(self)@.insert(ip),
            new == !old(self)@.contains(ip),
    {
        let new = match ip {
            IpAddr::V4(bits) => self.v4.insert(bits),
            IpAddr::V6(bits) => self.v6.insert(bits),
        };
        assert(self@ =~= old(self)@.insert(ip));
        new
    }

    /// Whether an address is in the set.
    pub fn contains(&self, ip: &IpAddr) -> (found: bool)
        ensures
            found == self@.contains(*ip),
    {
        match ip {
            IpAddr::V4(bits) => self.v4.contains(bits),
            IpAddr::V6(bits) => self.v6.contains(bits),
        }
    }

    /// Whether the set has no address.
    pub fn is_empty(&self) -> (empty: bool)
        ensures
            empty == (self@ == Set::<IpAddr>::empty()),
    {
        let empty = self.v4.is_empty() && self.v6.is_empty();
        proof {
            if empty {
                assert(self@ =~= Set::<IpAddr>::empty());
            } else if !self.v4@.is_empty() {
                assert(!(self.v4@ =~= Set::empty()));
                let bits = choose|bits: u32| self.v4@.contains(bits);
                assert(self@.contains(IpAddr::V4(bits)));
            } else {
                assert(!(self.v6@ =~= Set::empty()));
                let bits = choose|bits: u128| self.v6@.contains(bits);
                assert(self@.contains(IpAddr::V6(bits)));
            }
        }
        empty
    }
}

} // verus!
