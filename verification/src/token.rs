use vstd::prelude::*;
use crate::identity::Pubkey;

verus! {

/// A holder's balance account on the external token ledger, read at its
/// interface boundary: the token line it belongs to, its declared owner, and
/// how many units it holds. Holding at least one unit of a record's token
/// line is what makes an identity that record's holder.
#[derive(Clone, Copy, Debug, PartialEq, Eq, Structural)]
pub struct TokenAccount {
    pub mint: Pubkey,
    pub owner: Pubkey,
    pub amount: u64,
}

/// A token line on the external token ledger, read at its interface boundary.
/// A fresh line starts with zero supply and both authorities held by the
/// issuing signer; issuance fixes the supply at one unit and revokes both.
#[derive(Clone, Copy, Debug)]
pub struct TokenMint {
    pub address: Pubkey,
    pub supply: u64,
    pub decimals: u8,
    pub mint_authority: Option<Pubkey>,
    pub freeze_authority: Option<Pubkey>,
}

/// Issues the single unit of a fresh token line to `destination`, then revokes
/// the mint authority and the freeze authority in turn. Afterwards the line's
/// supply is fixed at one whole, indivisible unit forever, and no identity can
/// re-mint or freeze it.
pub fn issue_single_unit(mint: &mut TokenMint, destination: &mut TokenAccount)
    requires
        old(mint).supply == 0,
        old(mint).decimals == 0,
        old(mint).mint_authority is Some,
        old(destination).mint == old(mint).address,
        old(destination).amount == 0,
    ensures
        final(mint).address == old(mint).address,
        final(mint).supply == 1,
        final(mint).decimals == 0,
        final(mint).mint_authority is None,
        final(mint).freeze_authority is None,
        final(destination).mint == old(destination).mint,
        final(destination).owner == old(destination).owner,
        final(destination).amount == 1,
{
    mint.supply = 1;
    destination.amount = 1;
    mint.mint_authority = None;
    mint.freeze_authority = None;
}

} // verus!
