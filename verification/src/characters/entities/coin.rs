//! A coin in the scene of a client.

use crate::errors::RustLibError;
use vstd::prelude::*;
use vstd::string::StringExecFns;

verus! {

/// What becomes of a coin that a body has touched.
#[derive(Clone, Copy, Debug, PartialEq, Eq, Structural)]
pub enum CoinPickup {
    /// The coin stays: the store was not asked, or not reached.
    Stay,
    /// The coin plays its pickup animation, and is removed when it ends.
    PlayPickup,
    /// The coin is removed at once.
    Remove,
}

/// What came of asking the store for the coin.
#[derive(Debug)]
pub enum CollectRequest {
    /// The session could not be had.
    NoSession,
    /// The call was made, or failed to be made.
    Sent(Result<(), RustLibError>),
}

/// A coin of the scene.
#[derive(Debug)]
pub struct CoinNode {}

impl CoinNode {
    pub fn new() -> CoinNode {
        CoinNode {  }
    }

    /// The query for the table the coins are read from.
    pub fn setup_multiplayer() -> (query: String)
        ensures
            query@ == "SELECT * FROM coin"@,
    {
        String::from_str("SELECT * FROM coin")
    }

    /// What becomes of the coin after a body has touched it and the store
    /// was asked for it.  Once the call is on its way the coin goes: with
    /// its pickup animation when the local avatar touched it, at once when
    /// another body did.  A coin that could not be asked for stays.
    pub fn on_body_entered(&self, request: &CollectRequest, body_is_local_player: bool) -> (pickup:
        CoinPickup)
        ensures
            pickup == match request {
                CollectRequest::Sent(Ok(_)) => if body_is_local_player {
                    CoinPickup::PlayPickup
                } else {
                    CoinPickup::Remove
                },
                _ => CoinPickup::Stay,
            },
    {
        match request {
            CollectRequest::Sent(Ok(_)) => {
                if body_is_local_player {
                    CoinPickup::PlayPickup
                } else {
                    CoinPickup::Remove
                }
            },
            _ => CoinPickup::Stay,
        }
    }
}

impl Default for CoinNode {
    fn default() -> CoinNode {
        CoinNode::new()
    }
}

} // verus!
