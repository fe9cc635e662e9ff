//! The data that a cache hands out.
use vstd::prelude::*;

verus! {

/// What to do with a piece of payload.
#[derive(Clone, Copy, Debug, PartialEq, Eq)]
pub enum Action {
    /// The payload is to be added to the data set.
    Announce,

    /// The payload is to be removed from the data set.
    Withdraw,
}

/// The origin of an IPv4 prefix.
#[derive(Clone, Copy, Debug, PartialEq, Eq)]
pub struct Ipv4Prefix {
    /// The address, with its first octet in the highest bits.
    pub prefix: u32,

    /// The length of the prefix.
    pub prefix_len: u8,

    /// The length of the longest prefix that may be announced.
    pub max_len: u8,

    /// The number of the autonomous system that may announce it.
    pub asn: u32,
}

/// The origin of an IPv6 prefix.
#[derive(Clone, Copy, Debug, PartialEq, Eq)]
pub struct Ipv6Prefix {
    /// The address, with its first octet in the highest bits.
    pub prefix: u128,

    /// The length of the prefix.
    pub prefix_len: u8,

    /// The length of the longest prefix that may be announced.
    pub max_len: u8,

    /// The number of the autonomous system that may announce it.
    pub asn: u32,
}

/// A single VRP.
#[derive(Clone, Copy, Debug, PartialEq, Eq)]
pub enum Payload {
    V4(Ipv4Prefix),
    V6(Ipv6Prefix),
}

/// The timing parameters of a data set, all of them in seconds.
#[derive(Clone, Copy, Debug, PartialEq, Eq)]
pub struct Timing {
    /// How long to wait before asking for an update.
    pub refresh: u32,

    /// How long to wait before trying again after a failed update.
    pub retry: u32,

    /// How long the data may be used if no update succeeds.
    pub expire: u32,
}

impl Default for Timing {
    /// The values that the protocol suggests where the cache gives none.
    fn default() -> (timing: Timing)
        ensures
            timing == Timing::suggested(),
            timing == (Timing { refresh: 3600, retry: 600, expire: 7200 }),
    {
        Timing { refresh: 3600, retry: 600, expire: 7200 }
    }
}

impl Timing {
    /// The timing of a client that was not told any by its server.
    pub open spec fn suggested() -> Timing {
        Timing { refresh: 3600, retry: 600, expire: 7200 }
    }
}

} // verus!
