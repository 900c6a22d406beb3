use vstd::prelude::*;
use crate::identity::Pubkey;
use crate::validate::{valid_element, valid_external_object_id, valid_token_uri};

verus! {

/// The singleton global configuration: the administrator identity, the pause
/// flag for issuance, and the monotonically increasing identifier counter.
#[derive(Clone, Copy, Debug, PartialEq, Eq, Structural)]
pub struct ProgramConfig {
    pub authority: Pubkey,
    pub paused: bool,
    pub next_connection_id: u64,
}

/// One connection record per issued token line: the immutable provenance
/// fields, the content URI, the rotating consensus hash, and the one-way
/// release state.
#[derive(Debug)]
pub struct ConnectionRecord {
    pub connection_id: u64,
    pub minter: Pubkey,
    pub recipient: Pubkey,
    pub mint: Pubkey,
    pub token_uri: String,
    pub external_object_id: String,
    pub element: String,
    pub consensus_hash: [u8; 32],
    pub created_at: i64,
    pub released: bool,
    pub released_at: i64,
}

impl ConnectionRecord {
    /// Field bounds every stored record satisfies: a positive identifier and
    /// the three validated string fields within their limits.
    pub open spec fn wf(self) -> bool {
        &&& self.connection_id >= 1
        &&& valid_token_uri(self.token_uri@)
        &&& valid_external_object_id(self.external_object_id@)
        &&& valid_element(self.element@)
    }
}

/// Every byte of a 32-byte digest is zero.
pub open spec fn zeroed_hash(h: Seq<u8>) -> bool {
    h.len() == 32 && forall|i: int| 0 <= i < 32 ==> h[i] == 0
}

/// `rec` with its consensus hash replaced and every other field kept.
pub open spec fn with_consensus_hash(rec: ConnectionRecord, h: [u8; 32]) -> ConnectionRecord {
    ConnectionRecord {
        connection_id: rec.connection_id,
        minter: rec.minter,
        recipient: rec.recipient,
        mint: rec.mint,
        token_uri: rec.token_uri,
        external_object_id: rec.external_object_id,
        element: rec.element,
        consensus_hash: h,
        created_at: rec.created_at,
        released: rec.released,
        released_at: rec.released_at,
    }
}

/// `rec` after its terminal release at time `now`: the content URI replaced,
/// the consensus hash zeroed, the release flag and timestamp set, and every
/// immutable field kept.
pub open spec fn released_record(rec: ConnectionRecord, uri: String, now: i64) -> ConnectionRecord {
    ConnectionRecord {
        connection_id: rec.connection_id,
        minter: rec.minter,
        recipient: rec.recipient,
        mint: rec.mint,
        token_uri: uri,
        external_object_id: rec.external_object_id,
        element: rec.element,
        consensus_hash: vstd::array::spec_array_fill_for_copy_type::<u8, 32>(0u8),
        created_at: rec.created_at,
        released: true,
        released_at: now,
    }
}

} // verus!
