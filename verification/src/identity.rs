use vstd::prelude::*;

verus! {

/// A 256-bit identity on the ledger: a signer, an account address, or the
/// address of a token line. Held as four 64-bit words so that equality in
/// contracts is plain structural equality over the words.
#[derive(Clone, Copy, Debug, PartialEq, Eq, Structural)]
pub struct Pubkey {
    pub w0: u64,
    pub w1: u64,
    pub w2: u64,
    pub w3: u64,
}

impl Pubkey {
    /// A convenience constructor for an identity whose three high words are zero.
    pub fn from_low(w0: u64) -> (r: Pubkey)
        ensures
            r == (Pubkey { w0, w1: 0u64, w2: 0u64, w3: 0u64 }),
    {
        Pubkey { w0, w1: 0, w2: 0, w3: 0 }
    }
}

} // verus!
