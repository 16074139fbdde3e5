use crate::address::{offer_address, offer_address_spec, token_address, token_address_spec, Address};
use crate::faults::EscrowFault;
use crate::ledger::{debit_spec, open_spec, stepped, transfer_spec, Ledger, LedgerView};
use crate::models::EscrowOffer;
use vstd::prelude::*;

verus! {

/// The accounts that opening an offer works on, once checked.
#[derive(Debug, Clone, Copy)]
pub struct CreateEscrowFlow {
    pub maker: Address,
    pub mint_a: Address,
    pub mint_b: Address,
    pub maker_ata_a: Address,
    pub escrow: Address,
    pub escrow_bump: u8,
    pub vault: Address,
}

/// The accounts of opening offer `seed` for `maker`, or why they are refused:
/// both assets must exist, the maker's asset-A account must exist and be its,
/// and neither the offer record nor the vault may exist yet.
pub open spec fn create_accounts_spec(v: LedgerView, maker: Address, mint_a: Address, mint_b: Address, seed: u64) -> Result<CreateEscrowFlow, EscrowFault> {
    if !v.mints.contains_key(mint_a@) || !v.mints.contains_key(mint_b@) {
        Err(EscrowFault::AccountNotInitialized)
    } else {
        match (
            token_address_spec(v.associated_token_program@, v.token_program@, maker@, mint_a@),
            offer_address_spec(v.program_id@, maker@, seed),
        ) {
            (Some(ata), Some(esc)) => match token_address_spec(v.associated_token_program@, v.token_program@, esc.0@, mint_a@) {
                Some(vault) => {
                    if !v.tokens.contains_key(ata.0@) {
                        Err(EscrowFault::AccountNotInitialized)
                    } else if v.tokens[ata.0@].mint@ != mint_a@ {
                        Err(EscrowFault::ConstraintTokenMint)
                    } else if v.tokens[ata.0@].owner@ != maker@ {
                        Err(EscrowFault::ConstraintTokenOwner)
                    } else if v.offers.contains_key(esc.0@) || v.tokens.contains_key(vault.0@) {
                        Err(EscrowFault::AccountAlreadyInUse)
                    } else {
                        Ok(CreateEscrowFlow {
                            maker,
                            mint_a,
                            mint_b,
                            maker_ata_a: ata.0,
                            escrow: esc.0,
                            escrow_bump: esc.1,
                            vault: vault.0,
                        })
                    }
                },
                None => Err(EscrowFault::ConstraintSeeds),
            },
            _ => Err(EscrowFault::ConstraintSeeds),
        }
    }
}

/// The record that opening an offer writes.
pub open spec fn offer_spec(f: CreateEscrowFlow, seed: u64, receive: u64, now: i64) -> EscrowOffer {
    EscrowOffer {
        seed,
        maker: f.maker,
        mint_a: f.mint_a,
        mint_b: f.mint_b,
        receive,
        created_at: now,
        bump: f.escrow_bump,
    }
}

/// The ledger once the offer record is written.
pub open spec fn recorded_spec(v: LedgerView, f: CreateEscrowFlow, seed: u64, receive: u64, now: i64) -> LedgerView {
    v.with_offers(v.offers.insert(f.escrow@, offer_spec(f, seed, receive, now)))
}

/// Opening offer `seed`: the record is written with `created_at = now`, an
/// empty vault is opened, the maker paying both rents, and `deposit` of asset A
/// moves from the maker's account into the vault.
pub open spec fn make_spec(
    v: LedgerView,
    maker: Address,
    mint_a: Address,
    mint_b: Address,
    seed: u64,
    deposit: u64,
    receive: u64,
    now: i64,
) -> Result<LedgerView, EscrowFault> {
    match create_accounts_spec(v, maker, mint_a, mint_b, seed) {
        Err(e) => Err(e),
        Ok(f) => match debit_spec(v, maker@, v.record_rent) {
            Err(e) => Err(e),
            Ok(v0) => match open_spec(recorded_spec(v0, f, seed, receive, now), f.vault@, mint_a, f.escrow, false, maker@) {
                Err(e) => Err(e),
                Ok(v2) => transfer_spec(v2, f.maker_ata_a@, f.vault@, maker@, mint_a@, deposit, v.mints[mint_a@].decimals),
            },
        },
    }
}

impl CreateEscrowFlow {
    /// Derives and checks the accounts of opening offer `seed` for `maker`.
    pub fn load(ledger: &Ledger, maker: Address, mint_a: Address, mint_b: Address, seed: u64) -> (r: Result<CreateEscrowFlow, EscrowFault>)
        requires
            ledger.wf(),
        ensures
            r == create_accounts_spec(ledger@, maker, mint_a, mint_b, seed),
    {
        if ledger.mints.find(&mint_a).is_none() || ledger.mints.find(&mint_b).is_none() {
            return Err(EscrowFault::AccountNotInitialized);
        }
        let ata = token_address(&ledger.associated_token_program, &ledger.token_program, &maker, &mint_a);
        let esc = offer_address(&ledger.program_id, &maker, seed);
        if ata.is_none() || esc.is_none() {
            return Err(EscrowFault::ConstraintSeeds);
        }
        let (maker_ata_a, _) = ata.unwrap();
        let (escrow, escrow_bump) = esc.unwrap();
        let vault = match token_address(&ledger.associated_token_program, &ledger.token_program, &escrow, &mint_a) {
            Some(p) => p.0,
            None => return Err(EscrowFault::ConstraintSeeds),
        };
        match ledger.token_accounts.get(&maker_ata_a) {
            None => return Err(EscrowFault::AccountNotInitialized),
            Some(t) => {
                if !crate::address::same_address(&t.mint, &mint_a) {
                    return Err(EscrowFault::ConstraintTokenMint);
                }
                if !crate::address::same_address(&t.owner, &maker) {
                    return Err(EscrowFault::ConstraintTokenOwner);
                }
            },
        }
        if ledger.offers.find(&escrow).is_some() || ledger.token_accounts.find(&vault).is_some() {
            return Err(EscrowFault::AccountAlreadyInUse);
        }
        Ok(CreateEscrowFlow { maker, mint_a, mint_b, maker_ata_a, escrow, escrow_bump, vault })
    }

    /// Writes the offer record, with `created_at = now`.
    pub fn record_offer(&self, ledger: &mut Ledger, seed: u64, receive: u64, now: i64) -> (r: Result<(), EscrowFault>)
        requires
            old(ledger).wf(),
            !old(ledger)@.offers.contains_key(self.escrow@),
        ensures
            final(ledger).wf(),
            r is Ok,
            final(ledger)@ == recorded_spec(old(ledger)@, *self, seed, receive, now),
    {
        let offer = EscrowOffer {
            seed,
            maker: self.maker,
            mint_a: self.mint_a,
            mint_b: self.mint_b,
            receive,
            created_at: now,
            bump: self.escrow_bump,
        };
        ledger.offers.insert(self.escrow, offer);
        Ok(())
    }

    /// Moves `deposit` of asset A from the maker's account into the vault.
    pub fn lock_maker_funds(&self, ledger: &mut Ledger, deposit: u64) -> (r: Result<(), EscrowFault>)
        requires
            old(ledger).wf(),
            old(ledger)@.mints.contains_key(self.mint_a@),
        ensures
            final(ledger).wf(),
            stepped(old(ledger)@, final(ledger)@, r, transfer_spec(
                old(ledger)@,
                self.maker_ata_a@,
                self.vault@,
                self.maker@,
                self.mint_a@,
                deposit,
                old(ledger)@.mints[self.mint_a@].decimals,
            )),
    {
        let decimals = ledger.mints.get(&self.mint_a).unwrap().decimals;
        ledger.transfer_checked(&self.maker_ata_a, &self.vault, &self.maker, &self.mint_a, deposit, decimals)
    }
}

/// Opens offer `seed` for `maker`: `deposit` of asset A is locked in a vault
/// that only the offer controls, in exchange for `receive` of asset B. All or
/// nothing: on failure the ledger is as it was.
pub fn make(
    ledger: &mut Ledger,
    maker: Address,
    mint_a: Address,
    mint_b: Address,
    seed: u64,
    deposit: u64,
    receive: u64,
    now: i64,
) -> (r: Result<(), EscrowFault>)
    requires
        old(ledger).wf(),
    ensures
        final(ledger).wf(),
        stepped(old(ledger)@, final(ledger)@, r, make_spec(old(ledger)@, maker, mint_a, mint_b, seed, deposit, receive, now)),
{
    let flow = match CreateEscrowFlow::load(ledger, maker, mint_a, mint_b, seed) {
        Ok(f) => f,
        Err(e) => return Err(e),
    };
    let saved = ledger.snapshot();
    match ledger.debit_lamports(&maker, ledger.record_rent) {
        Err(e) => return Err(e),
        Ok(()) => {},
    }
    match flow.record_offer(ledger, seed, receive, now) {
        Err(e) => {
            *ledger = saved;
            return Err(e);
        },
        Ok(()) => {},
    }
    match ledger.open_token_account(flow.vault, mint_a, flow.escrow, false, &maker) {
        Err(e) => {
            *ledger = saved;
            return Err(e);
        },
        Ok(()) => {},
    }
    match flow.lock_maker_funds(ledger, deposit) {
        Ok(()) => Ok(()),
        Err(e) => {
            *ledger = saved;
            Err(e)
        },
    }
}

} // verus!
