use vstd::prelude::*;
use crate::identity::Pubkey;

verus! {

/// Notification of a successful mint, for external indexers.
#[derive(Clone, Copy, Debug, PartialEq, Eq, Structural)]
pub struct ConnectionMintedEvent {
    pub connection_id: u64,
    pub minter: Pubkey,
    pub recipient: Pubkey,
    pub mint: Pubkey,
    pub created_at: i64,
}

/// Notification of a consensus-hash rotation, carrying the acting identity.
#[derive(Clone, Copy, Debug, PartialEq, Eq, Structural)]
pub struct ConsensusHashUpdatedEvent {
    pub connection_id: u64,
    pub operator: Pubkey,
}

/// Notification of a terminal release.
#[derive(Clone, Copy, Debug, PartialEq, Eq, Structural)]
pub struct ConnectionReleasedEvent {
    pub connection_id: u64,
    pub operator: Pubkey,
    pub mint: Pubkey,
    pub released_at: i64,
}

} // verus!
