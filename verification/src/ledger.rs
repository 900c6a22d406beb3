use vstd::prelude::*;
use crate::errors::{LedgerError, MingError, StoreError};
use crate::events::{ConnectionMintedEvent, ConnectionReleasedEvent, ConsensusHashUpdatedEvent};
use crate::identity::Pubkey;
use crate::lifecycle;
use crate::lifecycle::{mint_check, release_check};
use crate::records::{released_record, with_consensus_hash, ConnectionRecord, ProgramConfig};
use crate::store::RecordStore;
use crate::token::{TokenAccount, TokenMint};

verus! {

/// The whole state the program owns on the ledger: the singleton
/// configuration and the record store. Each method is one atomic invocation:
/// it either applies all of its effects or returns an error and changes
/// nothing.
pub struct Ledger {
    pub config: Option<ProgramConfig>,
    pub store: RecordStore,
}

impl Ledger {
    /// The global invariant. Before initialization nothing is stored. Once
    /// the configuration exists, the stored identifiers are exactly the
    /// values the counter has already passed — 1 up to but excluding
    /// `next_connection_id` — and no two records share a token line.
    pub open spec fn wf(self) -> bool {
        &&& self.store.wf()
        &&& forall|i: int, j: int|
            0 <= i < self.store.records@.len() && 0 <= j < self.store.records@.len() && i != j
                ==> self.store.records@[i].mint != self.store.records@[j].mint
        &&& match self.config {
            Some(c) => {
                &&& c.next_connection_id >= 1
                &&& forall|i: int|
                    0 <= i < self.store.records@.len()
                        ==> self.store.records@[i].connection_id < c.next_connection_id
                &&& forall|id: u64| 1 <= id < c.next_connection_id ==> self.store.contains_id(id)
            },
            None => self.store.records@.len() == 0,
        }
    }

    /// A deployment starts with no configuration and an empty store.
    pub fn new() -> (l: Ledger)
        ensures
            l.wf(),
            l.config is None,
            l.store.records@.len() == 0,
    {
        Ledger { config: None, store: RecordStore::new() }
    }

    /// One-time creation of the singleton configuration; a second attempt
    /// fails at the storage layer because the configuration address is
    /// occupied.
    pub fn initialize_config(&mut self, payer: Pubkey, authority: Pubkey) -> (r: Result<
        (),
        LedgerError,
    >)
        requires
            old(self).wf(),
        ensures
            final(self).wf(),
            final(self).store.records@ == old(self).store.records@,
            old(self).config is Some ==> r == Err::<(), LedgerError>(
                LedgerError::Store(StoreError::AlreadyExists),
            ) && final(self).config == old(self).config,
            old(self).config is None && payer != authority ==> r == Err::<(), LedgerError>(
                LedgerError::Program(MingError::Unauthorized),
            ) && final(self).config is None,
            old(self).config is None && payer == authority ==> r == Ok::<(), LedgerError>(())
                && final(self).config == Some(
                ProgramConfig { authority, paused: false, next_connection_id: 1u64 },
            ),
    {
        if self.config.is_some() {
            return Err(LedgerError::Store(StoreError::AlreadyExists));
        }
        match lifecycle::initialize_config(payer, authority) {
            Ok(c) => {
                self.config = Some(c);
                Ok(())
            },
            Err(e) => Err(LedgerError::Program(e)),
        }
    }

    /// Sets the pause flag; authority-only, idempotent.
    pub fn set_pause(&mut self, authority: Pubkey, paused: bool) -> (r: Result<(), LedgerError>)
        requires
            old(self).wf(),
        ensures
            final(self).wf(),
            final(self).store.records@ == old(self).store.records@,
            match old(self).config {
                None => r == Err::<(), LedgerError>(LedgerError::Store(StoreError::NotFound))
                    && final(self).config is None,
                Some(c) => {
                    &&& authority == c.authority ==> r == Ok::<(), LedgerError>(())
                        && final(self).config == Some(ProgramConfig { paused, ..c })
                    &&& authority != c.authority ==> r == Err::<(), LedgerError>(
                        LedgerError::Program(MingError::Unauthorized),
                    ) && final(self).config == Some(c)
                },
            },
    {
        let c_opt = self.config;
        match c_opt {
            None => Err(LedgerError::Store(StoreError::NotFound)),
            Some(mut c) => {
                match lifecycle::set_pause(&mut c, authority, paused) {
                    Ok(u) => {
                        self.config = Some(c);
                        Ok(u)
                    },
                    Err(e) => Err(LedgerError::Program(e)),
                }
            },
        }
    }

    /// Mints a connection: issues the one unit of the fresh token line,
    /// creates the record at the address derived from the current counter
    /// value, and advances the counter by exactly one. The creation can never
    /// collide: the invariant keeps every stored identifier below the
    /// counter.
    pub fn mint_connection_nft(
        &mut self,
        mint: &mut TokenMint,
        recipient_token_account: &mut TokenAccount,
        payer: Pubkey,
        recipient_wallet: Pubkey,
        recipient: Pubkey,
        token_uri: String,
        external_object_id: String,
        element: String,
        consensus_hash: [u8; 32],
        now: i64,
    ) -> (r: Result<ConnectionMintedEvent, LedgerError>)
        requires
            old(self).wf(),
            old(mint).supply == 0,
            old(mint).decimals == 0,
            old(mint).mint_authority is Some,
            old(recipient_token_account).mint == old(mint).address,
            old(recipient_token_account).owner == recipient_wallet,
            old(recipient_token_account).amount == 0,
            forall|i: int|
                0 <= i < old(self).store.records@.len() ==> old(self).store.records@[i].mint
                    != old(mint).address,
        ensures
            final(self).wf(),
            forall|i: int|
                0 <= i < old(self).store.records@.len() ==> final(self).store.records@[i]
                    == old(self).store.records@[i],
            match old(self).config {
                None => {
                    &&& r == Err::<ConnectionMintedEvent, LedgerError>(
                        LedgerError::Store(StoreError::NotFound),
                    )
                    &&& final(self).config is None
                    &&& final(self).store.records@ == old(self).store.records@
                    &&& *final(mint) == *old(mint)
                    &&& *final(recipient_token_account) == *old(recipient_token_account)
                },
                Some(c) => {
                    let check = mint_check(
                        c,
                        recipient,
                        recipient_wallet,
                        token_uri@,
                        external_object_id@,
                        element@,
                    );
                    match r {
                        Ok(ev) => {
                            &&& check is Ok
                            &&& ev == (ConnectionMintedEvent {
                                connection_id: c.next_connection_id,
                                minter: payer,
                                recipient,
                                mint: old(mint).address,
                                created_at: now,
                            })
                            &&& final(self).config == Some(
                                ProgramConfig {
                                    next_connection_id: (c.next_connection_id + 1) as u64,
                                    ..c
                                },
                            )
                            &&& final(self).store.records@ == old(self).store.records@.push(
                                (ConnectionRecord {
                                    connection_id: c.next_connection_id,
                                    minter: payer,
                                    recipient,
                                    mint: old(mint).address,
                                    token_uri,
                                    external_object_id,
                                    element,
                                    consensus_hash,
                                    created_at: now,
                                    released: false,
                                    released_at: 0,
                                }),
                            )
                            &&& final(mint).address == old(mint).address
                            &&& final(mint).supply == 1
                            &&& final(mint).mint_authority is None
                            &&& final(mint).freeze_authority is None
                            &&& final(recipient_token_account).mint == old(
                                recipient_token_account,
                            ).mint
                            &&& final(recipient_token_account).owner == old(
                                recipient_token_account,
                            ).owner
                            &&& final(recipient_token_account).amount == 1
                        },
                        Err(le) => match le {
                            LedgerError::Program(e) => {
                                &&& check == Err::<(), MingError>(e)
                                &&& final(self).config == old(self).config
                                &&& final(self).store.records@ == old(self).store.records@
                                &&& *final(mint) == *old(mint)
                                &&& *final(recipient_token_account) == *old(
                                    recipient_token_account,
                                )
                            },
                            LedgerError::Store(_) => false,
                        },
                    }
                },
            },
    {
        let c_opt = self.config;
        let mut c = match c_opt {
            None => {
                return Err(LedgerError::Store(StoreError::NotFound));
            },
            Some(c) => c,
        };
        let ghost c0: ProgramConfig = c;
        let result = lifecycle::mint_connection_nft(
            &mut c,
            mint,
            recipient_token_account,
            payer,
            recipient_wallet,
            recipient,
            token_uri,
            external_object_id,
            element,
            consensus_hash,
            now,
        );
        match result {
            Err(e) => Err(LedgerError::Program(e)),
            Ok((record, event)) => {
                proof {
                    assert(!self.store.contains_id(record.connection_id));
                }
                let created = self.store.create(record);
                match created {
                    Ok(u) => {
                        self.config = Some(c);
                        proof {
                            let olds = old(self).store.records@;
                            let news = self.store.records@;
                            assert forall|id: u64|
                                1 <= id < c.next_connection_id implies self.store.contains_id(
                                id,
                            ) by {
                                if id < c0.next_connection_id {
                                    assert(old(self).store.contains_id(id));
                                    let i = choose|i: int|
                                        0 <= i < olds.len() && olds[i].connection_id == id;
                                    assert(news[i].connection_id == id);
                                } else {
                                    assert(news[olds.len() as int].connection_id == id);
                                }
                            }
                        }
                        Ok(event)
                    },
                    Err(_) => {
                        proof {
                            assert(false);
                        }
                        Err(LedgerError::Store(StoreError::AlreadyExists))
                    },
                }
            },
        }
    }

    /// Rotates the consensus hash of the addressed record; authority-only,
    /// and deliberately possible after release as well.
    pub fn update_consensus_hash(
        &mut self,
        connection_id: u64,
        authority: Pubkey,
        new_consensus_hash: [u8; 32],
    ) -> (r: Result<ConsensusHashUpdatedEvent, LedgerError>)
        requires
            old(self).wf(),
        ensures
            final(self).wf(),
            final(self).config == old(self).config,
            final(self).store.records@.len() == old(self).store.records@.len(),
            forall|i: int|
                0 <= i < old(self).store.records@.len() ==> {
                    &&& final(self).store.records@[i].connection_id == old(
                        self,
                    ).store.records@[i].connection_id
                    &&& final(self).store.records@[i].released == old(
                        self,
                    ).store.records@[i].released
                },
            match old(self).config {
                None => r == Err::<ConsensusHashUpdatedEvent, LedgerError>(
                    LedgerError::Store(StoreError::NotFound),
                ) && final(self).store.records@ == old(self).store.records@,
                Some(c) => {
                    if !old(self).store.contains_id(connection_id) {
                        r == Err::<ConsensusHashUpdatedEvent, LedgerError>(
                            LedgerError::Store(StoreError::NotFound),
                        ) && final(self).store.records@ == old(self).store.records@
                    } else if authority != c.authority {
                        r == Err::<ConsensusHashUpdatedEvent, LedgerError>(
                            LedgerError::Program(MingError::Unauthorized),
                        ) && final(self).store.records@ == old(self).store.records@
                    } else {
                        &&& r == Ok::<ConsensusHashUpdatedEvent, LedgerError>(
                            ConsensusHashUpdatedEvent { connection_id, operator: authority },
                        )
                        &&& exists|i: int|
                            {
                                &&& 0 <= i < old(self).store.records@.len()
                                &&& old(self).store.records@[i].connection_id == connection_id
                                &&& final(self).store.records@ == old(self).store.records@.update(
                                    i,
                                    with_consensus_hash(
                                        old(self).store.records@[i],
                                        new_consensus_hash,
                                    ),
                                )
                            }
                    }
                },
            },
    {
        let c = match self.config {
            None => {
                return Err(LedgerError::Store(StoreError::NotFound));
            },
            Some(c) => c,
        };
        let idx = match self.store.find_index(connection_id) {
            None => {
                return Err(LedgerError::Store(StoreError::NotFound));
            },
            Some(i) => i,
        };
        let mut rec = self.store.records.remove(idx);
        let result = lifecycle::update_consensus_hash(&c, &mut rec, authority, new_consensus_hash);
        self.store.records.insert(idx, rec);
        match result {
            Ok(ev) => {
                proof {
                    assert(old(self).store.contains_id(connection_id));
                    let olds = old(self).store.records@;
                    let news = self.store.records@;
                    assert(news =~= olds.update(
                        idx as int,
                        with_consensus_hash(olds[idx as int], new_consensus_hash),
                    ));
                    assert forall|id: u64|
                        1 <= id < c.next_connection_id implies self.store.contains_id(id) by {
                        assert(old(self).store.contains_id(id));
                        let i = choose|i: int|
                            0 <= i < olds.len() && olds[i].connection_id == id;
                        assert(news[i].connection_id == id);
                    }
                    assert(self.wf());
                }
                Ok(ev)
            },
            Err(e) => {
                proof {
                    assert(self.store.records@ =~= old(self).store.records@);
                    let olds = old(self).store.records@;
                    assert forall|id: u64|
                        old(self).store.contains_id(id) implies self.store.contains_id(id) by {
                        let i = choose|i: int|
                            0 <= i < olds.len() && olds[i].connection_id == id;
                        assert(self.store.records@[i].connection_id == id);
                    }
                    assert(self.wf());
                }
                Err(LedgerError::Program(e))
            },
        }
    }

    /// Releases the addressed record: holder-authenticated, terminal.
    pub fn release_connection(
        &mut self,
        connection_id: u64,
        operator: Pubkey,
        holder_token_account: &TokenAccount,
        released_token_uri: String,
        now: i64,
    ) -> (r: Result<ConnectionReleasedEvent, LedgerError>)
        requires
            old(self).wf(),
        ensures
            final(self).wf(),
            final(self).config == old(self).config,
            final(self).store.records@.len() == old(self).store.records@.len(),
            forall|i: int|
                0 <= i < old(self).store.records@.len() ==> {
                    &&& final(self).store.records@[i].connection_id == old(
                        self,
                    ).store.records@[i].connection_id
                    &&& (old(self).store.records@[i].released
                        ==> final(self).store.records@[i].released)
                },
            !old(self).store.contains_id(connection_id) ==> r == Err::<
                ConnectionReleasedEvent,
                LedgerError,
            >(LedgerError::Store(StoreError::NotFound)) && final(self).store.records@ == old(
                self,
            ).store.records@,
            old(self).store.contains_id(connection_id) ==> exists|i: int|
                {
                    &&& 0 <= i < old(self).store.records@.len()
                    &&& old(self).store.records@[i].connection_id == connection_id
                    &&& ({
                        let check = release_check(
                            old(self).store.records@[i],
                            operator,
                            *holder_token_account,
                            released_token_uri@,
                        );
                        match r {
                            Ok(ev) => {
                                &&& check is Ok
                                &&& ev == (ConnectionReleasedEvent {
                                    connection_id,
                                    operator,
                                    mint: old(self).store.records@[i].mint,
                                    released_at: now,
                                })
                                &&& final(self).store.records@ == old(self).store.records@.update(
                                    i,
                                    released_record(
                                        old(self).store.records@[i],
                                        released_token_uri,
                                        now,
                                    ),
                                )
                            },
                            Err(le) => match le {
                                LedgerError::Program(e) => {
                                    &&& check == Err::<(), MingError>(e)
                                    &&& final(self).store.records@ == old(self).store.records@
                                },
                                LedgerError::Store(_) => false,
                            },
                        }
                    })
                },
    {
        let idx = match self.store.find_index(connection_id) {
            None => {
                return Err(LedgerError::Store(StoreError::NotFound));
            },
            Some(i) => i,
        };
        let ghost old_rec = self.store.records@[idx as int];
        let mut rec = self.store.records.remove(idx);
        let result = lifecycle::release_connection(
            &mut rec,
            operator,
            holder_token_account,
            released_token_uri,
            now,
        );
        self.store.records.insert(idx, rec);
        match result {
            Ok(ev) => {
                proof {
                    assert(old(self).store.contains_id(connection_id));
                    let olds = old(self).store.records@;
                    let news = self.store.records@;
                    assert(news =~= olds.update(
                        idx as int,
                        released_record(old_rec, released_token_uri, now),
                    ));
                    if old(self).config is Some {
                        let c = old(self).config->Some_0;
                        assert forall|id: u64|
                            1 <= id < c.next_connection_id implies self.store.contains_id(id) by {
                            assert(old(self).store.contains_id(id));
                            let i = choose|i: int|
                                0 <= i < olds.len() && olds[i].connection_id == id;
                            assert(news[i].connection_id == id);
                        }
                    }
                    assert(self.wf());
                }
                Ok(ev)
            },
            Err(e) => {
                proof {
                    assert(self.store.records@ =~= old(self).store.records@);
                    assert(old(self).store.contains_id(connection_id));
                    let olds = old(self).store.records@;
                    assert forall|id: u64|
                        old(self).store.contains_id(id) implies self.store.contains_id(id) by {
                        let i = choose|i: int|
                            0 <= i < olds.len() && olds[i].connection_id == id;
                        assert(self.store.records@[i].connection_id == id);
                    }
                    assert(self.wf());
                }
                Err(LedgerError::Program(e))
            },
        }
    }
}

/// Once the configuration exists, the stored identifiers are exactly
/// 1 up to but excluding the counter — assigned in order, strictly increasing
/// by one, with no gap and no repeat — and each identifier occupies exactly
/// one slot.
pub proof fn lemma_connection_ids_sequential(l: Ledger)
    requires
        l.wf(),
        l.config is Some,
    ensures
        forall|id: u64|
            l.store.contains_id(id) <==> 1 <= id < l.config->Some_0.next_connection_id,
        forall|i: int, j: int|
            0 <= i < l.store.records@.len() && 0 <= j < l.store.records@.len() && i != j
                ==> l.store.records@[i].connection_id != l.store.records@[j].connection_id,
{
    assert forall|id: u64|
        l.store.contains_id(id) implies 1 <= id < l.config->Some_0.next_connection_id by {
        let i = choose|i: int|
            0 <= i < l.store.records@.len() && l.store.records@[i].connection_id == id;
        assert(l.store.records@[i].wf());
    }
}

} // verus!
