//! The synchronisation state of a session.
use vstd::prelude::*;

verus! {

/// Which data set a router holds: a session of the cache and a serial in it.
#[derive(Clone, Copy, Debug, PartialEq, Eq)]
pub struct State {
    /// The identifier of the session.
    pub session: u16,

    /// The serial number of the data set within the session.
    pub serial: u32,
}

} // verus!
