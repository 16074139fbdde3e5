use crate::address::{offer_address, offer_address_spec, same_address, token_address, token_address_spec, Address};
use crate::faults::EscrowFault;
use crate::flows::settle::{check_offer, offer_checks_spec, release_and_close_spec, release_spec, release_stepped, release_vault};
use crate::ledger::{stepped, Ledger, LedgerView};
use crate::models::{unlocked, EscrowOffer, OFFER_LOCK_WINDOW};
use vstd::prelude::*;

verus! {

/// The accounts that returning an offer's deposit to its maker works on, once checked.
#[derive(Debug, Clone, Copy)]
pub struct CrankCancelEscrowFlow {
    pub maker: Address,
    pub mint_a: Address,
    pub maker_ata_a: Address,
    pub escrow: Address,
    pub vault: Address,
    pub offer: EscrowOffer,
}

/// The accounts of returning offer `seed` to `maker`, or why they are refused:
/// asset A must exist, the maker's asset-A account must exist and be its, and
/// the record and the vault must pass `offer_checks_spec`.
pub open spec fn cancel_accounts_spec(v: LedgerView, maker: Address, mint_a: Address, seed: u64) -> Result<CrankCancelEscrowFlow, EscrowFault> {
    if !v.mints.contains_key(mint_a@) {
        Err(EscrowFault::AccountNotInitialized)
    } else {
        match (
            token_address_spec(v.associated_token_program@, v.token_program@, maker@, mint_a@),
            offer_address_spec(v.program_id@, maker@, seed),
        ) {
            (Some(ata), Some(esc)) => match token_address_spec(v.associated_token_program@, v.token_program@, esc.0@, mint_a@) {
                None => Err(EscrowFault::ConstraintSeeds),
                Some(vault) => {
                    if !v.tokens.contains_key(ata.0@) {
                        Err(EscrowFault::AccountNotInitialized)
                    } else if v.tokens[ata.0@].mint@ != mint_a@ {
                        Err(EscrowFault::ConstraintTokenMint)
                    } else if v.tokens[ata.0@].owner@ != maker@ {
                        Err(EscrowFault::ConstraintTokenOwner)
                    } else {
                        match offer_checks_spec(v, maker, mint_a, None, seed, esc, vault.0) {
                            Err(e) => Err(e),
                            Ok(offer) => Ok(CrankCancelEscrowFlow {
                                maker,
                                mint_a,
                                maker_ata_a: ata.0,
                                escrow: esc.0,
                                vault: vault.0,
                                offer,
                            }),
                        }
                    }
                },
            },
            _ => Err(EscrowFault::ConstraintSeeds),
        }
    }
}

/// Returning offer `seed` to `maker`: the whole vault goes back to the maker's
/// asset-A account, and the vault and the record are closed, their rents going
/// to the maker.
pub open spec fn cancel_spec(v: LedgerView, maker: Address, mint_a: Address, seed: u64) -> Result<LedgerView, EscrowFault> {
    match cancel_accounts_spec(v, maker, mint_a, seed) {
        Err(e) => Err(e),
        Ok(f) => release_and_close_spec(v, f.vault, f.escrow, f.mint_a, f.maker_ata_a, f.maker),
    }
}

impl CrankCancelEscrowFlow {
    /// Derives and checks the accounts of returning offer `seed` to `maker`.
    pub fn load(ledger: &Ledger, maker: Address, mint_a: Address, seed: u64) -> (r: Result<CrankCancelEscrowFlow, EscrowFault>)
        requires
            ledger.wf(),
        ensures
            r == cancel_accounts_spec(ledger@, maker, mint_a, seed),
    {
        if ledger.mints.find(&mint_a).is_none() {
            return Err(EscrowFault::AccountNotInitialized);
        }
        let ap = ledger.associated_token_program;
        let tp = ledger.token_program;
        let ata = token_address(&ap, &tp, &maker, &mint_a);
        let esc = offer_address(&ledger.program_id, &maker, seed);
        if ata.is_none() || esc.is_none() {
            return Err(EscrowFault::ConstraintSeeds);
        }
        let maker_ata_a = ata.unwrap().0;
        let esc = esc.unwrap();
        let vault = match token_address(&ap, &tp, &esc.0, &mint_a) {
            Some(p) => p.0,
            None => return Err(EscrowFault::ConstraintSeeds),
        };
        match ledger.token_accounts.get(&maker_ata_a) {
            None => return Err(EscrowFault::AccountNotInitialized),
            Some(t) => {
                if !same_address(&t.mint, &mint_a) {
                    return Err(EscrowFault::ConstraintTokenMint);
                }
                if !same_address(&t.owner, &maker) {
                    return Err(EscrowFault::ConstraintTokenOwner);
                }
            },
        }
        let offer = match check_offer(ledger, &maker, &mint_a, None, seed, esc, &vault) {
            Err(e) => return Err(e),
            Ok(o) => o,
        };
        Ok(CrankCancelEscrowFlow { maker, mint_a, maker_ata_a, escrow: esc.0, vault, offer })
    }

    /// Hands the whole vault back to the maker, then closes the vault, its rent
    /// going to the maker too.
    pub fn release_to_maker(&self, ledger: &mut Ledger) -> (r: Result<(), EscrowFault>)
        requires
            old(ledger).wf(),
            old(ledger)@.tokens.contains_key(self.vault@),
            old(ledger)@.mints.contains_key(self.mint_a@),
        ensures
            final(ledger).wf(),
            release_stepped(old(ledger)@, final(ledger)@, r, self.vault, self.escrow, self.mint_a, self.maker_ata_a, self.maker),
            r is Ok ==> release_spec(old(ledger)@, self.vault, self.escrow, self.mint_a, self.maker_ata_a, self.maker) == Ok::<LedgerView, EscrowFault>(final(ledger)@),
            r matches Err(e) ==> release_spec(old(ledger)@, self.vault, self.escrow, self.mint_a, self.maker_ata_a, self.maker) == Err::<LedgerView, EscrowFault>(e),
    {
        release_vault(ledger, &self.vault, &self.escrow, &self.mint_a, &self.maker_ata_a, &self.maker)
    }
}

fn cancel(ledger: &mut Ledger, maker: Address, mint_a: Address, seed: u64) -> (r: Result<(), EscrowFault>)
    requires
        old(ledger).wf(),
    ensures
        final(ledger).wf(),
        stepped(old(ledger)@, final(ledger)@, r, cancel_spec(old(ledger)@, maker, mint_a, seed)),
{
    let flow = match CrankCancelEscrowFlow::load(ledger, maker, mint_a, seed) {
        Ok(f) => f,
        Err(e) => return Err(e),
    };
    let saved = ledger.snapshot();
    let released = match flow.release_to_maker(ledger) {
        Ok(()) => ledger.close_record(&flow.escrow, &flow.maker),
        Err(e) => Err(e),
    };
    match released {
        Ok(()) => Ok(()),
        Err(e) => {
            *ledger = saved;
            Err(e)
        },
    }
}

/// The maker's refund: refused unless `signer` is the maker, else as `cancel_spec`.
pub open spec fn refund_spec(v: LedgerView, signer: Address, maker: Address, mint_a: Address, seed: u64) -> Result<LedgerView, EscrowFault> {
    if signer@ != maker@ {
        Err(EscrowFault::ConstraintSigner)
    } else {
        cancel_spec(v, maker, mint_a, seed)
    }
}

/// The maker takes offer `seed` back at any time: the whole vault returns to
/// the maker's asset-A account and the vault and the record are closed, their
/// rents going to the maker. Refused unless `signer`, who signed the call, is
/// the maker. All or nothing.
pub fn refund(ledger: &mut Ledger, signer: Address, maker: Address, mint_a: Address, seed: u64) -> (r: Result<(), EscrowFault>)
    requires
        old(ledger).wf(),
    ensures
        final(ledger).wf(),
        stepped(old(ledger)@, final(ledger)@, r, refund_spec(old(ledger)@, signer, maker, mint_a, seed)),
{
    if !same_address(&signer, &maker) {
        return Err(EscrowFault::ConstraintSigner);
    }
    cancel(ledger, maker, mint_a, seed)
}

/// Anyone returns offer `seed` to `maker`, with the same effect as `refund` and
/// no signature asked; no time is checked. All or nothing.
pub fn auto_refund(ledger: &mut Ledger, maker: Address, mint_a: Address, seed: u64) -> (r: Result<(), EscrowFault>)
    requires
        old(ledger).wf(),
    ensures
        final(ledger).wf(),
        stepped(old(ledger)@, final(ledger)@, r, cancel_spec(old(ledger)@, maker, mint_a, seed)),
{
    cancel(ledger, maker, mint_a, seed)
}

/// The permissionless refund with its time check switched by `require_unlock`:
/// when set, refused with `EscrowStillLocked` until the lock window has passed.
pub open spec fn auto_refund_checked_spec(
    v: LedgerView,
    maker: Address,
    mint_a: Address,
    seed: u64,
    now: i64,
    require_unlock: bool,
) -> Result<LedgerView, EscrowFault> {
    match cancel_accounts_spec(v, maker, mint_a, seed) {
        Err(e) => Err(e),
        Ok(f) => if require_unlock && !unlocked(f.offer.created_at, now) {
            Err(EscrowFault::EscrowStillLocked)
        } else {
            cancel_spec(v, maker, mint_a, seed)
        },
    }
}

/// `auto_refund`, with an optional check that the lock window has passed at
/// `now`; without it, this is `auto_refund` itself. All or nothing.
pub fn auto_refund_checked(
    ledger: &mut Ledger,
    maker: Address,
    mint_a: Address,
    seed: u64,
    now: i64,
    require_unlock: bool,
) -> (r: Result<(), EscrowFault>)
    requires
        old(ledger).wf(),
    ensures
        final(ledger).wf(),
        stepped(old(ledger)@, final(ledger)@, r, auto_refund_checked_spec(old(ledger)@, maker, mint_a, seed, now, require_unlock)),
{
    if require_unlock {
        match CrankCancelEscrowFlow::load(ledger, maker, mint_a, seed) {
            Err(e) => return Err(e),
            Ok(f) => {
                if (f.offer.created_at as i128) + (OFFER_LOCK_WINDOW as i128) > now as i128 {
                    return Err(EscrowFault::EscrowStillLocked);
                }
            },
        }
    }
    cancel(ledger, maker, mint_a, seed)
}

} // verus!
