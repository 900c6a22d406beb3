use vstd::prelude::*;
use crate::errors::MingError;
use crate::events::{ConnectionMintedEvent, ConnectionReleasedEvent, ConsensusHashUpdatedEvent};
use crate::identity::Pubkey;
use crate::records::{released_record, with_consensus_hash, zeroed_hash, ConnectionRecord,
    ProgramConfig};
use crate::token::{issue_single_unit, TokenAccount, TokenMint};
use crate::validate::{mint_fields_check, token_uri_check, validate_mint_fields,
    validate_release_token_uri};

verus! {

/// The preconditions of a mint, in the order they are checked: the pause
/// flag, the declared recipient against the destination owner, the field
/// validators, and finally identifier-counter exhaustion.
pub open spec fn mint_check(
    config: ProgramConfig,
    recipient: Pubkey,
    recipient_wallet: Pubkey,
    uri: Seq<char>,
    obj: Seq<char>,
    el: Seq<char>,
) -> Result<(), MingError> {
    if config.paused {
        Err(MingError::ProgramPaused)
    } else if recipient != recipient_wallet {
        Err(MingError::RecipientMismatch)
    } else if mint_fields_check(uri, obj, el) is Err {
        mint_fields_check(uri, obj, el)
    } else if config.next_connection_id == u64::MAX {
        Err(MingError::MathOverflow)
    } else {
        Ok(())
    }
}

/// The preconditions of a release, in the order they are checked: the
/// presented balance account must belong to the record's token line and to
/// the caller, the new URI must validate, the balance must be positive, and
/// the record must not already be released.
pub open spec fn release_check(
    rec: ConnectionRecord,
    operator: Pubkey,
    holder: TokenAccount,
    uri: Seq<char>,
) -> Result<(), MingError> {
    if holder.mint != rec.mint || holder.owner != operator {
        Err(MingError::NotConnectionHolder)
    } else if token_uri_check(uri) is Err {
        token_uri_check(uri)
    } else if holder.amount == 0 {
        Err(MingError::NotConnectionHolder)
    } else if rec.released {
        Err(MingError::AlreadyReleased)
    } else {
        Ok(())
    }
}

/// Creates the singleton configuration. The paying signer must itself be the
/// declared authority; the counter starts at one and the pause flag cleared.
pub fn initialize_config(payer: Pubkey, authority: Pubkey) -> (r: Result<ProgramConfig, MingError>)
    ensures
        payer == authority ==> r == Ok::<ProgramConfig, MingError>(
            ProgramConfig { authority, paused: false, next_connection_id: 1u64 },
        ),
        payer != authority ==> r == Err::<ProgramConfig, MingError>(MingError::Unauthorized),
{
    if payer == authority {
        Ok(ProgramConfig { authority, paused: false, next_connection_id: 1 })
    } else {
        Err(MingError::Unauthorized)
    }
}

/// Sets the pause flag. Authority-only; setting the flag to the value it
/// already holds succeeds and changes nothing.
pub fn set_pause(config: &mut ProgramConfig, authority: Pubkey, paused: bool) -> (r: Result<
    (),
    MingError,
>)
    ensures
        r is Ok <==> authority == old(config).authority,
        authority == old(config).authority ==> *final(config) == (ProgramConfig {
            paused,
            ..*old(config)
        }),
        authority != old(config).authority ==> r == Err::<(), MingError>(MingError::Unauthorized)
            && *final(config) == *old(config),
{
    if authority == config.authority {
        config.paused = paused;
        Ok(())
    } else {
        Err(MingError::Unauthorized)
    }
}

/// Mints a connection: issues the single unit of the fresh token line to the
/// recipient, builds the record under the current counter value, advances the
/// counter by exactly one, and reports the minted event. Any rejected
/// precondition leaves the configuration and both token-ledger accounts
/// untouched.
pub fn mint_connection_nft(
    config: &mut ProgramConfig,
    mint: &mut TokenMint,
    recipient_token_account: &mut TokenAccount,
    payer: Pubkey,
    recipient_wallet: Pubkey,
    recipient: Pubkey,
    token_uri: String,
    external_object_id: String,
    element: String,
    consensus_hash: [u8; 32],
    now: i64,
) -> (r: Result<(ConnectionRecord, ConnectionMintedEvent), MingError>)
    requires
        old(mint).supply == 0,
        old(mint).decimals == 0,
        old(mint).mint_authority is Some,
        old(recipient_token_account).mint == old(mint).address,
        old(recipient_token_account).owner == recipient_wallet,
        old(recipient_token_account).amount == 0,
    ensures
        ({
            let check = mint_check(
                *old(config),
                recipient,
                recipient_wallet,
                token_uri@,
                external_object_id@,
                element@,
            );
            match r {
                Ok(p) => {
                    &&& check is Ok
                    &&& p.0.connection_id == old(config).next_connection_id
                    &&& p.0.minter == payer
                    &&& p.0.recipient == recipient
                    &&& p.0.mint == old(mint).address
                    &&& p.0.token_uri == token_uri
                    &&& p.0.external_object_id == external_object_id
                    &&& p.0.element == element
                    &&& p.0.consensus_hash == consensus_hash
                    &&& p.0.created_at == now
                    &&& p.0.released == false
                    &&& p.0.released_at == 0
                    &&& p.1 == (ConnectionMintedEvent {
                        connection_id: old(config).next_connection_id,
                        minter: payer,
                        recipient,
                        mint: old(mint).address,
                        created_at: now,
                    })
                    &&& *final(config) == (ProgramConfig {
                        next_connection_id: (old(config).next_connection_id + 1) as u64,
                        ..*old(config)
                    })
                    &&& final(mint).address == old(mint).address
                    &&& final(mint).supply == 1
                    &&& final(mint).decimals == 0
                    &&& final(mint).mint_authority is None
                    &&& final(mint).freeze_authority is None
                    &&& final(recipient_token_account).mint == old(recipient_token_account).mint
                    &&& final(recipient_token_account).owner == old(recipient_token_account).owner
                    &&& final(recipient_token_account).amount == 1
                },
                Err(e) => {
                    &&& check == Err::<(), MingError>(e)
                    &&& *final(config) == *old(config)
                    &&& *final(mint) == *old(mint)
                    &&& *final(recipient_token_account) == *old(recipient_token_account)
                },
            }
        }),
{
    if config.paused {
        return Err(MingError::ProgramPaused);
    }
    if recipient != recipient_wallet {
        return Err(MingError::RecipientMismatch);
    }
    let field_check = validate_mint_fields(
        token_uri.as_str(),
        external_object_id.as_str(),
        element.as_str(),
    );
    if let Err(e) = field_check {
        return Err(e);
    }
    if config.next_connection_id == u64::MAX {
        return Err(MingError::MathOverflow);
    }
    issue_single_unit(mint, recipient_token_account);
    let connection_id: u64 = config.next_connection_id;
    let record = ConnectionRecord {
        connection_id,
        minter: payer,
        recipient,
        mint: mint.address,
        token_uri,
        external_object_id,
        element,
        consensus_hash,
        created_at: now,
        released: false,
        released_at: 0,
    };
    config.next_connection_id = connection_id + 1;
    let event = ConnectionMintedEvent {
        connection_id,
        minter: payer,
        recipient,
        mint: record.mint,
        created_at: now,
    };
    Ok((record, event))
}

/// Rotates the consensus hash. Authority-only; deliberately not guarded by the
/// release flag, so the authority may overwrite the hash even afterwards.
pub fn update_consensus_hash(
    config: &ProgramConfig,
    connection: &mut ConnectionRecord,
    authority: Pubkey,
    new_consensus_hash: [u8; 32],
) -> (r: Result<ConsensusHashUpdatedEvent, MingError>)
    ensures
        authority == config.authority ==> r == Ok::<ConsensusHashUpdatedEvent, MingError>(
            ConsensusHashUpdatedEvent {
                connection_id: old(connection).connection_id,
                operator: authority,
            },
        ) && *final(connection) == with_consensus_hash(*old(connection), new_consensus_hash),
        authority != config.authority ==> r == Err::<ConsensusHashUpdatedEvent, MingError>(
            MingError::Unauthorized,
        ) && *final(connection) == *old(connection),
        old(connection).released == final(connection).released,
{
    if authority == config.authority {
        connection.consensus_hash = new_consensus_hash;
        Ok(ConsensusHashUpdatedEvent { connection_id: connection.connection_id, operator: authority })
    } else {
        Err(MingError::Unauthorized)
    }
}

/// Releases a connection: the caller proves holder status through a positive
/// balance on the record's token line, the content URI is finalized, the
/// consensus hash zeroed, and the release flag set once and for all. A
/// rejected precondition leaves the record untouched; a released record can
/// never return to the unreleased state.
pub fn release_connection(
    connection: &mut ConnectionRecord,
    operator: Pubkey,
    holder_token_account: &TokenAccount,
    released_token_uri: String,
    now: i64,
) -> (r: Result<ConnectionReleasedEvent, MingError>)
    ensures
        ({
            let check = release_check(
                *old(connection),
                operator,
                *holder_token_account,
                released_token_uri@,
            );
            match r {
                Ok(ev) => {
                    &&& check is Ok
                    &&& ev == (ConnectionReleasedEvent {
                        connection_id: old(connection).connection_id,
                        operator,
                        mint: old(connection).mint,
                        released_at: now,
                    })
                    &&& *final(connection) == released_record(
                        *old(connection),
                        released_token_uri,
                        now,
                    )
                    &&& zeroed_hash(final(connection).consensus_hash@)
                },
                Err(e) => {
                    &&& check == Err::<(), MingError>(e)
                    &&& *final(connection) == *old(connection)
                },
            }
        }),
        old(connection).released ==> final(connection).released,
{
    if holder_token_account.mint != connection.mint || holder_token_account.owner != operator {
        return Err(MingError::NotConnectionHolder);
    }
    let uri_check = validate_release_token_uri(released_token_uri.as_str());
    if let Err(e) = uri_check {
        return Err(e);
    }
    if holder_token_account.amount == 0 {
        return Err(MingError::NotConnectionHolder);
    }
    if connection.released {
        return Err(MingError::AlreadyReleased);
    }
    connection.token_uri = released_token_uri;
    connection.consensus_hash = [0u8; 32];
    connection.released = true;
    connection.released_at = now;
    Ok(ConnectionReleasedEvent {
        connection_id: connection.connection_id,
        operator,
        mint: connection.mint,
        released_at: now,
    })
}

} // verus!
