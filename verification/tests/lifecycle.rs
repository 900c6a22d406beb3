use ming_connection::errors::MingError;
use ming_connection::identity::Pubkey;
use ming_connection::lifecycle::{initialize_config, mint_connection_nft, release_connection,
    set_pause, update_consensus_hash};
use ming_connection::records::{ConnectionRecord, ProgramConfig};
use ming_connection::token::{TokenAccount, TokenMint};

fn pk(n: u64) -> Pubkey {
    Pubkey::from_low(n)
}

fn fresh_mint(addr: u64) -> TokenMint {
    TokenMint {
        address: pk(addr),
        supply: 0,
        decimals: 0,
        mint_authority: Some(pk(900)),
        freeze_authority: Some(pk(900)),
    }
}

fn config(authority: u64, paused: bool, next: u64) -> ProgramConfig {
    ProgramConfig { authority: pk(authority), paused, next_connection_id: next }
}

fn do_mint(config: &mut ProgramConfig, recipient: u64, mint_addr: u64) -> ConnectionRecord {
    let mut mint = fresh_mint(mint_addr);
    let mut ta = TokenAccount { mint: pk(mint_addr), owner: pk(recipient), amount: 0 };
    let (record, _) = mint_connection_nft(
        config,
        &mut mint,
        &mut ta,
        pk(50),
        pk(recipient),
        pk(recipient),
        "ipfs://abc".to_string(),
        "obj-1".to_string(),
        "fire".to_string(),
        [9u8; 32],
        1_700_000_000,
    )
    .expect("mint should succeed");
    record
}

#[test]
fn initialize_requires_payer_to_be_authority() {
    assert_eq!(
        initialize_config(pk(1), pk(1)),
        Ok(ProgramConfig { authority: pk(1), paused: false, next_connection_id: 1 })
    );
    assert_eq!(initialize_config(pk(1), pk(2)), Err(MingError::Unauthorized));
}

#[test]
fn set_pause_is_authority_only() {
    let mut c = config(1, false, 1);
    assert_eq!(set_pause(&mut c, pk(2), true), Err(MingError::Unauthorized));
    assert_eq!(c, config(1, false, 1));
    assert_eq!(set_pause(&mut c, pk(1), true), Ok(()));
    assert_eq!(c, config(1, true, 1));
    // Setting the flag to the value it already holds succeeds and changes nothing.
    assert_eq!(set_pause(&mut c, pk(1), true), Ok(()));
    assert_eq!(c, config(1, true, 1));
}

#[test]
fn mint_while_paused_fails_and_changes_nothing() {
    let mut c = config(1, true, 5);
    let mut mint = fresh_mint(10);
    let mut ta = TokenAccount { mint: pk(10), owner: pk(2), amount: 0 };
    let r = mint_connection_nft(
        &mut c,
        &mut mint,
        &mut ta,
        pk(50),
        pk(2),
        pk(2),
        "ipfs://abc".to_string(),
        "obj-1".to_string(),
        "fire".to_string(),
        [0u8; 32],
        7,
    );
    assert!(matches!(r, Err(MingError::ProgramPaused)));
    assert_eq!(c, config(1, true, 5));
    assert_eq!(mint.supply, 0);
    assert_eq!(ta.amount, 0);
}

#[test]
fn mint_recipient_mismatch() {
    let mut c = config(1, false, 1);
    let mut mint = fresh_mint(10);
    let mut ta = TokenAccount { mint: pk(10), owner: pk(2), amount: 0 };
    let r = mint_connection_nft(
        &mut c,
        &mut mint,
        &mut ta,
        pk(50),
        pk(2),
        pk(3),
        "ipfs://abc".to_string(),
        "obj-1".to_string(),
        "fire".to_string(),
        [0u8; 32],
        7,
    );
    assert!(matches!(r, Err(MingError::RecipientMismatch)));
    assert_eq!(c, config(1, false, 1));
}

#[test]
fn mint_with_invalid_uri_has_no_side_effects() {
    let mut c = config(1, false, 3);
    let mut mint = fresh_mint(10);
    let mut ta = TokenAccount { mint: pk(10), owner: pk(2), amount: 0 };
    let r = mint_connection_nft(
        &mut c,
        &mut mint,
        &mut ta,
        pk(50),
        pk(2),
        pk(2),
        "nota-uri".to_string(),
        "obj-1".to_string(),
        "fire".to_string(),
        [0u8; 32],
        7,
    );
    assert!(matches!(r, Err(MingError::InvalidTokenUri)));
    assert_eq!(c, config(1, false, 3));
    assert_eq!(mint.supply, 0);
    assert_eq!(mint.mint_authority, Some(pk(900)));
    assert_eq!(ta.amount, 0);
}

#[test]
fn mint_with_overlong_uri_has_no_side_effects() {
    let mut c = config(1, false, 3);
    let mut mint = fresh_mint(10);
    let mut ta = TokenAccount { mint: pk(10), owner: pk(2), amount: 0 };
    let over_200 = format!("ipfs://{}", "a".repeat(194));
    let r = mint_connection_nft(
        &mut c,
        &mut mint,
        &mut ta,
        pk(50),
        pk(2),
        pk(2),
        over_200,
        "obj-1".to_string(),
        "fire".to_string(),
        [0u8; 32],
        7,
    );
    assert!(matches!(r, Err(MingError::TokenUriTooLong)));
    assert_eq!(c, config(1, false, 3));
    assert_eq!(mint.supply, 0);
}

#[test]
fn mint_counter_exhaustion_fails() {
    let mut c = config(1, false, u64::MAX);
    let mut mint = fresh_mint(10);
    let mut ta = TokenAccount { mint: pk(10), owner: pk(2), amount: 0 };
    let r = mint_connection_nft(
        &mut c,
        &mut mint,
        &mut ta,
        pk(50),
        pk(2),
        pk(2),
        "ipfs://abc".to_string(),
        "obj-1".to_string(),
        "fire".to_string(),
        [0u8; 32],
        7,
    );
    assert!(matches!(r, Err(MingError::MathOverflow)));
    assert_eq!(c, config(1, false, u64::MAX));
    assert_eq!(mint.supply, 0);
}

#[test]
fn mint_populates_record_and_advances_counter() {
    let mut c = config(1, false, 1);
    let mut mint = fresh_mint(10);
    let mut ta = TokenAccount { mint: pk(10), owner: pk(2), amount: 0 };
    let (record, event) = mint_connection_nft(
        &mut c,
        &mut mint,
        &mut ta,
        pk(50),
        pk(2),
        pk(2),
        "ipfs://abc".to_string(),
        "obj-1".to_string(),
        "fire".to_string(),
        [9u8; 32],
        1_700_000_000,
    )
    .expect("mint should succeed");
    assert_eq!(record.connection_id, 1);
    assert_eq!(record.minter, pk(50));
    assert_eq!(record.recipient, pk(2));
    assert_eq!(record.mint, pk(10));
    assert_eq!(record.token_uri, "ipfs://abc");
    assert_eq!(record.external_object_id, "obj-1");
    assert_eq!(record.element, "fire");
    assert_eq!(record.consensus_hash, [9u8; 32]);
    assert_eq!(record.created_at, 1_700_000_000);
    assert!(!record.released);
    assert_eq!(record.released_at, 0);
    assert_eq!(c.next_connection_id, 2);
    // The token line is fixed at one unit with both authorities revoked.
    assert_eq!(mint.supply, 1);
    assert_eq!(mint.mint_authority, None);
    assert_eq!(mint.freeze_authority, None);
    assert_eq!(ta.amount, 1);
    assert_eq!(event.connection_id, 1);
    assert_eq!(event.minter, pk(50));
    assert_eq!(event.mint, pk(10));
}

#[test]
fn update_hash_is_authority_only() {
    let mut c = config(1, false, 2);
    let mut record = do_mint(&mut c, 2, 10);
    let r = update_consensus_hash(&c, &mut record, pk(2), [7u8; 32]);
    assert_eq!(r, Err(MingError::Unauthorized));
    assert_eq!(record.consensus_hash, [9u8; 32]);

    let ev = update_consensus_hash(&c, &mut record, pk(1), [7u8; 32]).expect("authority update");
    assert_eq!(record.consensus_hash, [7u8; 32]);
    assert_eq!(ev.connection_id, record.connection_id);
    assert_eq!(ev.operator, pk(1));
}

#[test]
fn release_by_non_holder_fails() {
    let mut c = config(1, false, 1);
    let mut record = do_mint(&mut c, 2, 10);
    // Zero balance on the record's token line.
    let empty = TokenAccount { mint: pk(10), owner: pk(2), amount: 0 };
    let r = release_connection(&mut record, pk(2), &empty, "https://x/final".to_string(), 8);
    assert!(matches!(r, Err(MingError::NotConnectionHolder)));
    // Balance account owned by someone other than the caller.
    let other = TokenAccount { mint: pk(10), owner: pk(3), amount: 1 };
    let r = release_connection(&mut record, pk(2), &other, "https://x/final".to_string(), 8);
    assert!(matches!(r, Err(MingError::NotConnectionHolder)));
    // Balance account of a different token line.
    let wrong_line = TokenAccount { mint: pk(11), owner: pk(2), amount: 1 };
    let r = release_connection(&mut record, pk(2), &wrong_line, "https://x/final".to_string(), 8);
    assert!(matches!(r, Err(MingError::NotConnectionHolder)));
    assert!(!record.released);
}

#[test]
fn release_validates_uri() {
    let mut c = config(1, false, 1);
    let mut record = do_mint(&mut c, 2, 10);
    let holder = TokenAccount { mint: pk(10), owner: pk(2), amount: 1 };
    let r = release_connection(&mut record, pk(2), &holder, "bad".to_string(), 8);
    assert!(matches!(r, Err(MingError::InvalidTokenUri)));
    assert!(!record.released);
    assert_eq!(record.token_uri, "ipfs://abc");
}

#[test]
fn release_is_terminal() {
    let mut c = config(1, false, 1);
    let mut record = do_mint(&mut c, 2, 10);
    let holder = TokenAccount { mint: pk(10), owner: pk(2), amount: 1 };
    let ev = release_connection(&mut record, pk(2), &holder, "https://x/final".to_string(), 8)
        .expect("holder release");
    assert!(record.released);
    assert_eq!(record.released_at, 8);
    assert_eq!(record.token_uri, "https://x/final");
    assert_eq!(record.consensus_hash, [0u8; 32]);
    assert_eq!(ev.connection_id, record.connection_id);
    assert_eq!(ev.mint, pk(10));
    assert_eq!(ev.released_at, 8);
    // A second release is rejected and the record stays released.
    let r = release_connection(&mut record, pk(2), &holder, "https://y".to_string(), 9);
    assert!(matches!(r, Err(MingError::AlreadyReleased)));
    assert!(record.released);
    assert_eq!(record.token_uri, "https://x/final");
}

#[test]
fn hash_update_after_release_is_permitted() {
    // The hash rotation deliberately carries no release guard: the authority
    // may overwrite the zeroed digest even after the terminal transition.
    let mut c = config(1, false, 1);
    let mut record = do_mint(&mut c, 2, 10);
    let holder = TokenAccount { mint: pk(10), owner: pk(2), amount: 1 };
    release_connection(&mut record, pk(2), &holder, "https://x/final".to_string(), 8)
        .expect("holder release");
    assert_eq!(record.consensus_hash, [0u8; 32]);
    update_consensus_hash(&c, &mut record, pk(1), [5u8; 32]).expect("post-release update");
    assert_eq!(record.consensus_hash, [5u8; 32]);
    assert!(record.released);
}
