//! Who a caller is, and when something happened.

use vstd::prelude::*;

verus! {

/// The credential-bound key of a client: a 256-bit number, held as its
/// upper and lower halves.  Two identities are the same client exactly when
/// both halves agree.
#[derive(Clone, Copy, Debug, PartialEq, Eq, Hash, Structural)]
pub struct Identity {
    pub hi: u128,
    pub lo: u128,
}

impl Identity {
    pub fn new(hi: u128, lo: u128) -> (id: Identity)
        ensures
            id.hi == hi,
            id.lo == lo,
    {
        Identity { hi, lo }
    }
}

/// A point in time: microseconds since the Unix epoch.
#[derive(Clone, Copy, Debug, PartialEq, Eq, Hash, Structural)]
pub struct Timestamp {
    pub micros_since_unix_epoch: i64,
}

impl Timestamp {
    pub fn from_micros_since_unix_epoch(micros: i64) -> (t: Timestamp)
        ensures
            t.micros_since_unix_epoch == micros,
    {
        Timestamp { micros_since_unix_epoch: micros }
    }

    pub fn to_micros_since_unix_epoch(self) -> (micros: i64)
        ensures
            micros == self.micros_since_unix_epoch,
    {
        self.micros_since_unix_epoch
    }
}

} // verus!
