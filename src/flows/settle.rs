use crate::address::{offer_address, offer_address_spec, same_address, token_address, token_address_spec, Address};
use crate::faults::EscrowFault;
use crate::ledger::{close_record_spec, close_spec, open_spec, stepped, transfer_spec, Ledger, LedgerView};
use crate::models::{unlocked, EscrowOffer, OFFER_LOCK_WINDOW};
use vstd::prelude::*;

verus! {

/// The accounts that settling an offer works on, once checked.
#[derive(Debug, Clone, Copy)]
pub struct SettleEscrowFlow {
    pub taker: Address,
    pub maker: Address,
    pub mint_a: Address,
    pub mint_b: Address,
    pub taker_ata_a: Address,
    pub taker_ata_b: Address,
    pub maker_ata_b: Address,
    pub escrow: Address,
    pub vault: Address,
    pub offer: EscrowOffer,
}

/// The addresses that settling offer `seed` of `maker` derives: the taker's
/// accounts of both assets, the maker's asset-B account, the record and the vault.
pub open spec fn settle_addresses_spec(
    v: LedgerView,
    taker: Address,
    maker: Address,
    mint_a: Address,
    mint_b: Address,
    seed: u64,
) -> Option<(Address, Address, Address, (Address, u8), Address)> {
    let ata = |o: Address, m: Address| token_address_spec(v.associated_token_program@, v.token_program@, o@, m@);
    match (ata(taker, mint_a), ata(taker, mint_b), ata(maker, mint_b), offer_address_spec(v.program_id@, maker@, seed)) {
        (Some(ta), Some(tb), Some(mb), Some(esc)) => match ata(esc.0, mint_a) {
            Some(vault) => Some((ta.0, tb.0, mb.0, esc, vault.0)),
            None => None,
        },
        _ => None,
    }
}

/// The checks of an offer record and its vault: the record must exist at its
/// derived address and name this maker and these assets; the vault must hold
/// asset A for the record.
pub open spec fn offer_checks_spec(
    v: LedgerView,
    maker: Address,
    mint_a: Address,
    mint_b: Option<Address>,
    seed: u64,
    esc: (Address, u8),
    vault: Address,
) -> Result<EscrowOffer, EscrowFault> {
    if !v.offers.contains_key(esc.0@) {
        Err(EscrowFault::AccountNotInitialized)
    } else if v.offers[esc.0@].maker@ != maker@ || v.offers[esc.0@].mint_a@ != mint_a@ || (
    mint_b is Some && v.offers[esc.0@].mint_b@ != mint_b->0@) {
        Err(EscrowFault::ConstraintHasOne)
    } else if v.offers[esc.0@].seed != seed || v.offers[esc.0@].bump != esc.1 {
        Err(EscrowFault::ConstraintSeeds)
    } else if !v.tokens.contains_key(vault@) {
        Err(EscrowFault::AccountNotInitialized)
    } else if v.tokens[vault@].mint@ != mint_a@ {
        Err(EscrowFault::ConstraintTokenMint)
    } else if v.tokens[vault@].owner@ != esc.0@ {
        Err(EscrowFault::ConstraintTokenOwner)
    } else {
        Ok(v.offers[esc.0@])
    }
}

/// The accounts of settling offer `seed` of `maker`, with the ledger after the
/// taker's asset-A and the maker's asset-B accounts are opened where missing.
pub open spec fn settle_accounts_spec(
    v: LedgerView,
    taker: Address,
    maker: Address,
    mint_a: Address,
    mint_b: Address,
    seed: u64,
) -> Result<(SettleEscrowFlow, LedgerView), EscrowFault> {
    if !v.mints.contains_key(mint_a@) || !v.mints.contains_key(mint_b@) {
        Err(EscrowFault::AccountNotInitialized)
    } else {
        match settle_addresses_spec(v, taker, maker, mint_a, mint_b, seed) {
            None => Err(EscrowFault::ConstraintSeeds),
            Some((ta, tb, mb, esc, vault)) => match open_spec(v, ta@, mint_a, taker, true, taker@) {
                Err(e) => Err(e),
                Ok(v1) => {
                    if !v1.tokens.contains_key(tb@) {
                        Err(EscrowFault::AccountNotInitialized)
                    } else if v1.tokens[tb@].mint@ != mint_b@ {
                        Err(EscrowFault::ConstraintTokenMint)
                    } else if v1.tokens[tb@].owner@ != taker@ {
                        Err(EscrowFault::ConstraintTokenOwner)
                    } else {
                        match open_spec(v1, mb@, mint_b, maker, true, taker@) {
                            Err(e) => Err(e),
                            Ok(v2) => match offer_checks_spec(v2, maker, mint_a, Some(mint_b), seed, esc, vault) {
                                Err(e) => Err(e),
                                Ok(offer) => Ok(
                                    (
                                        SettleEscrowFlow {
                                            taker,
                                            maker,
                                            mint_a,
                                            mint_b,
                                            taker_ata_a: ta,
                                            taker_ata_b: tb,
                                            maker_ata_b: mb,
                                            escrow: esc.0,
                                            vault,
                                            offer,
                                        },
                                        v2,
                                    ),
                                ),
                            },
                        }
                    }
                },
            },
        }
    }
}

/// Paying the maker: `receive` of asset B from the taker's account to the maker's.
pub open spec fn pay_spec(v: LedgerView, f: SettleEscrowFlow) -> Result<LedgerView, EscrowFault> {
    transfer_spec(v, f.taker_ata_b@, f.maker_ata_b@, f.taker@, f.mint_b@, f.offer.receive, v.mints[f.mint_b@].decimals)
}

/// Releasing the vault: its whole balance to `to`, signed by the offer, then
/// closing the vault, its rent going to `rent_to`. The record stays open.
pub open spec fn release_spec(v: LedgerView, vault: Address, escrow: Address, mint_a: Address, to: Address, rent_to: Address) -> Result<LedgerView, EscrowFault> {
    match transfer_spec(v, vault@, to@, escrow@, mint_a@, v.tokens[vault@].amount, v.mints[mint_a@].decimals) {
        Err(e) => Err(e),
        Ok(v1) => close_spec(v1, vault@, escrow@, rent_to@),
    }
}

/// How releasing the vault left the ledger, step by step: where the transfer
/// fails nothing has changed; where closing the vault fails the transfer has
/// happened and nothing more; otherwise both steps have happened.
pub open spec fn release_stepped(
    pre: LedgerView,
    post: LedgerView,
    r: Result<(), EscrowFault>,
    vault: Address,
    escrow: Address,
    mint_a: Address,
    to: Address,
    rent_to: Address,
) -> bool {
    match transfer_spec(pre, vault@, to@, escrow@, mint_a@, pre.tokens[vault@].amount, pre.mints[mint_a@].decimals) {
        Err(e) => r == Err::<(), EscrowFault>(e) && post == pre,
        Ok(v1) => match close_spec(v1, vault@, escrow@, rent_to@) {
            Err(e) => r == Err::<(), EscrowFault>(e) && post == v1,
            Ok(v2) => r is Ok && post == v2,
        },
    }
}

/// Releasing the vault to `to`, then closing the offer record; both rents go
/// to `rent_to`.
pub open spec fn release_and_close_spec(v: LedgerView, vault: Address, escrow: Address, mint_a: Address, to: Address, rent_to: Address) -> Result<LedgerView, EscrowFault> {
    match release_spec(v, vault, escrow, mint_a, to, rent_to) {
        Err(e) => Err(e),
        Ok(v1) => close_record_spec(v1, escrow@, rent_to@),
    }
}

/// Settling offer `seed` of `maker` at time `now`: refused until the lock
/// window has passed; then the taker pays `receive` of asset B to the maker and
/// takes the whole vault, and the vault and the record are closed, their rents
/// going to the maker.
pub open spec fn take_spec(
    v: LedgerView,
    taker: Address,
    maker: Address,
    mint_a: Address,
    mint_b: Address,
    seed: u64,
    now: i64,
) -> Result<LedgerView, EscrowFault> {
    match settle_accounts_spec(v, taker, maker, mint_a, mint_b, seed) {
        Err(e) => Err(e),
        Ok((f, v1)) => {
            if !unlocked(f.offer.created_at, now) {
                Err(EscrowFault::EscrowStillLocked)
            } else {
                match pay_spec(v1, f) {
                    Err(e) => Err(e),
                    Ok(v2) => release_and_close_spec(v2, f.vault, f.escrow, f.mint_a, f.taker_ata_a, f.maker),
                }
            }
        },
    }
}

/// Checks the record and the vault of offer `seed` of `maker`, as
/// `offer_checks_spec` says.
pub fn check_offer(
    ledger: &Ledger,
    maker: &Address,
    mint_a: &Address,
    mint_b: Option<Address>,
    seed: u64,
    esc: (Address, u8),
    vault: &Address,
) -> (r: Result<EscrowOffer, EscrowFault>)
    requires
        ledger.wf(),
    ensures
        r == offer_checks_spec(ledger@, *maker, *mint_a, mint_b, seed, esc, *vault),
{
    let offer = match ledger.offers.get(&esc.0) {
        Some(o) => o,
        None => return Err(EscrowFault::AccountNotInitialized),
    };
    let other_b = match mint_b {
        Some(b) => !same_address(&offer.mint_b, &b),
        None => false,
    };
    if !same_address(&offer.maker, maker) || !same_address(&offer.mint_a, mint_a) || other_b {
        return Err(EscrowFault::ConstraintHasOne);
    }
    if offer.seed != seed || offer.bump != esc.1 {
        return Err(EscrowFault::ConstraintSeeds);
    }
    match ledger.token_accounts.get(vault) {
        None => Err(EscrowFault::AccountNotInitialized),
        Some(t) => {
            if !same_address(&t.mint, mint_a) {
                Err(EscrowFault::ConstraintTokenMint)
            } else if !same_address(&t.owner, &esc.0) {
                Err(EscrowFault::ConstraintTokenOwner)
            } else {
                Ok(offer)
            }
        },
    }
}

/// Moves the whole vault to `to` on the offer's signature, then closes the
/// vault, its rent going to `rent_to`.
pub fn release_vault(
    ledger: &mut Ledger,
    vault: &Address,
    escrow: &Address,
    mint_a: &Address,
    to: &Address,
    rent_to: &Address,
) -> (r: Result<(), EscrowFault>)
    requires
        old(ledger).wf(),
        old(ledger)@.tokens.contains_key(vault@),
        old(ledger)@.mints.contains_key(mint_a@),
    ensures
        final(ledger).wf(),
        release_stepped(old(ledger)@, final(ledger)@, r, *vault, *escrow, *mint_a, *to, *rent_to),
        r is Ok ==> release_spec(old(ledger)@, *vault, *escrow, *mint_a, *to, *rent_to) == Ok::<LedgerView, EscrowFault>(final(ledger)@),
        r matches Err(e) ==> release_spec(old(ledger)@, *vault, *escrow, *mint_a, *to, *rent_to) == Err::<LedgerView, EscrowFault>(e),
{
    let amount = ledger.token_accounts.get(vault).unwrap().amount;
    let decimals = ledger.mints.get(mint_a).unwrap().decimals;
    match ledger.transfer_checked(vault, to, escrow, mint_a, amount, decimals) {
        Err(e) => return Err(e),
        Ok(()) => {},
    }
    ledger.close_account(vault, escrow, rent_to)
}

impl SettleEscrowFlow {
    /// Derives and checks the accounts of settling offer `seed` of `maker`,
    /// opening the taker's asset-A and the maker's asset-B accounts where missing.
    pub fn load(ledger: &mut Ledger, taker: Address, maker: Address, mint_a: Address, mint_b: Address, seed: u64) -> (r: Result<SettleEscrowFlow, EscrowFault>)
        requires
            old(ledger).wf(),
        ensures
            final(ledger).wf(),
            match r {
                Ok(f) => settle_accounts_spec(old(ledger)@, taker, maker, mint_a, mint_b, seed) == Ok::<(SettleEscrowFlow, LedgerView), EscrowFault>((f, final(ledger)@)),
                Err(e) => settle_accounts_spec(old(ledger)@, taker, maker, mint_a, mint_b, seed) == Err::<(SettleEscrowFlow, LedgerView), EscrowFault>(e),
            },
    {
        if ledger.mints.find(&mint_a).is_none() || ledger.mints.find(&mint_b).is_none() {
            return Err(EscrowFault::AccountNotInitialized);
        }
        let ap = ledger.associated_token_program;
        let tp = ledger.token_program;
        let ta = token_address(&ap, &tp, &taker, &mint_a);
        let tb = token_address(&ap, &tp, &taker, &mint_b);
        let mb = token_address(&ap, &tp, &maker, &mint_b);
        let esc = offer_address(&ledger.program_id, &maker, seed);
        if ta.is_none() || tb.is_none() || mb.is_none() || esc.is_none() {
            return Err(EscrowFault::ConstraintSeeds);
        }
        let ta = ta.unwrap().0;
        let tb = tb.unwrap().0;
        let mb = mb.unwrap().0;
        let esc = esc.unwrap();
        let vault = match token_address(&ap, &tp, &esc.0, &mint_a) {
            Some(p) => p.0,
            None => return Err(EscrowFault::ConstraintSeeds),
        };
        match ledger.open_token_account(ta, mint_a, taker, true, &taker) {
            Err(e) => return Err(e),
            Ok(()) => {},
        }
        match ledger.token_accounts.get(&tb) {
            None => return Err(EscrowFault::AccountNotInitialized),
            Some(t) => {
                if !same_address(&t.mint, &mint_b) {
                    return Err(EscrowFault::ConstraintTokenMint);
                }
                if !same_address(&t.owner, &taker) {
                    return Err(EscrowFault::ConstraintTokenOwner);
                }
            },
        }
        match ledger.open_token_account(mb, mint_b, maker, true, &taker) {
            Err(e) => return Err(e),
            Ok(()) => {},
        }
        let offer = match check_offer(ledger, &maker, &mint_a, Some(mint_b), seed, esc, &vault) {
            Err(e) => return Err(e),
            Ok(o) => o,
        };
        Ok(SettleEscrowFlow {
            taker,
            maker,
            mint_a,
            mint_b,
            taker_ata_a: ta,
            taker_ata_b: tb,
            maker_ata_b: mb,
            escrow: esc.0,
            vault,
            offer,
        })
    }

    /// Refuses to settle before the lock window after the offer's creation has passed.
    pub fn enforce_unlock_time(&self, now: i64) -> (r: Result<(), EscrowFault>)
        ensures
            r is Ok <==> unlocked(self.offer.created_at, now),
            r matches Err(e) ==> e == EscrowFault::EscrowStillLocked,
    {
        if (self.offer.created_at as i128) + (OFFER_LOCK_WINDOW as i128) <= now as i128 {
            Ok(())
        } else {
            Err(EscrowFault::EscrowStillLocked)
        }
    }

    /// Pays the maker `receive` of asset B from the taker's account.
    pub fn pay_maker_side(&self, ledger: &mut Ledger) -> (r: Result<(), EscrowFault>)
        requires
            old(ledger).wf(),
            old(ledger)@.mints.contains_key(self.mint_b@),
        ensures
            final(ledger).wf(),
            stepped(old(ledger)@, final(ledger)@, r, pay_spec(old(ledger)@, *self)),
    {
        let decimals = ledger.mints.get(&self.mint_b).unwrap().decimals;
        ledger.transfer_checked(&self.taker_ata_b, &self.maker_ata_b, &self.taker, &self.mint_b, self.offer.receive, decimals)
    }

    /// Hands the whole vault to the taker, then closes the vault, its rent
    /// going to the maker.
    pub fn release_to_taker(&self, ledger: &mut Ledger) -> (r: Result<(), EscrowFault>)
        requires
            old(ledger).wf(),
            old(ledger)@.tokens.contains_key(self.vault@),
            old(ledger)@.mints.contains_key(self.mint_a@),
        ensures
            final(ledger).wf(),
            release_stepped(old(ledger)@, final(ledger)@, r, self.vault, self.escrow, self.mint_a, self.taker_ata_a, self.maker),
            r is Ok ==> release_spec(old(ledger)@, self.vault, self.escrow, self.mint_a, self.taker_ata_a, self.maker) == Ok::<LedgerView, EscrowFault>(final(ledger)@),
            r matches Err(e) ==> release_spec(old(ledger)@, self.vault, self.escrow, self.mint_a, self.taker_ata_a, self.maker) == Err::<LedgerView, EscrowFault>(e),
    {
        release_vault(ledger, &self.vault, &self.escrow, &self.mint_a, &self.taker_ata_a, &self.maker)
    }
}

/// Settles offer `seed` of `maker` for `taker` at time `now`. All or nothing:
/// on failure the ledger is as it was.
pub fn take(ledger: &mut Ledger, taker: Address, maker: Address, mint_a: Address, mint_b: Address, seed: u64, now: i64) -> (r: Result<(), EscrowFault>)
    requires
        old(ledger).wf(),
    ensures
        final(ledger).wf(),
        stepped(old(ledger)@, final(ledger)@, r, take_spec(old(ledger)@, taker, maker, mint_a, mint_b, seed, now)),
{
    let saved = ledger.snapshot();
    let result = take_in_place(ledger, taker, maker, mint_a, mint_b, seed, now);
    match result {
        Ok(()) => Ok(()),
        Err(e) => {
            *ledger = saved;
            Err(e)
        },
    }
}

fn take_in_place(ledger: &mut Ledger, taker: Address, maker: Address, mint_a: Address, mint_b: Address, seed: u64, now: i64) -> (r: Result<(), EscrowFault>)
    requires
        old(ledger).wf(),
    ensures
        final(ledger).wf(),
        r is Ok ==> take_spec(old(ledger)@, taker, maker, mint_a, mint_b, seed, now) == Ok::<LedgerView, EscrowFault>(final(ledger)@),
        r matches Err(e) ==> take_spec(old(ledger)@, taker, maker, mint_a, mint_b, seed, now) == Err::<LedgerView, EscrowFault>(e),
{
    let flow = match SettleEscrowFlow::load(ledger, taker, maker, mint_a, mint_b, seed) {
        Ok(f) => f,
        Err(e) => return Err(e),
    };
    match flow.enforce_unlock_time(now) {
        Err(e) => return Err(e),
        Ok(()) => {},
    }
    match flow.pay_maker_side(ledger) {
        Err(e) => return Err(e),
        Ok(()) => {},
    }
    match flow.release_to_taker(ledger) {
        Err(e) => return Err(e),
        Ok(()) => {},
    }
    ledger.close_record(&flow.escrow, &flow.maker)
}

} // verus!
