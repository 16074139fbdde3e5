use crate::address::{offer_address_spec, token_address_spec, Address};
use crate::faults::EscrowFault;
use crate::flows::create::make_spec;
use crate::flows::crank_cancel::{cancel_accounts_spec, cancel_spec, refund_spec, CrankCancelEscrowFlow};
use crate::flows::queue_cancel::is_refund_task;
use crate::flows::settle::{settle_accounts_spec, settle_addresses_spec, take_spec};
use crate::ledger::LedgerView;
use crate::models::{unlocked, EscrowOffer};
use vstd::prelude::*;

verus! {

/// The vault of offer `seed` of `maker` for asset `mint_a`, where it can be derived.
pub open spec fn vault_of(v: LedgerView, maker: Address, mint_a: Address, seed: u64) -> Option<Address> {
    match offer_address_spec(v.program_id@, maker@, seed) {
        Some(esc) => match token_address_spec(v.associated_token_program@, v.token_program@, esc.0@, mint_a@) {
            Some(vault) => Some(vault.0),
            None => None,
        },
        None => None,
    }
}

/// Opening an offer twice for the same maker and seed: the second attempt is
/// refused because the record exists already.
pub proof fn law_create_collides(
    v: LedgerView,
    maker: Address,
    mint_a: Address,
    mint_b: Address,
    seed: u64,
    deposit: u64,
    receive: u64,
    now: i64,
    w: LedgerView,
    deposit2: u64,
    receive2: u64,
    now2: i64,
)
    requires
        make_spec(v, maker, mint_a, mint_b, seed, deposit, receive, now) == Ok::<LedgerView, EscrowFault>(w),
    ensures
        make_spec(w, maker, mint_a, mint_b, seed, deposit2, receive2, now2) == Err::<LedgerView, EscrowFault>(EscrowFault::AccountAlreadyInUse),
{
}

/// Opening an offer moves exactly `deposit` from the maker's asset-A account
/// into the new vault, which then holds exactly that.
pub proof fn law_create_locks_deposit(
    v: LedgerView,
    maker: Address,
    mint_a: Address,
    mint_b: Address,
    seed: u64,
    deposit: u64,
    receive: u64,
    now: i64,
    w: LedgerView,
)
    requires
        make_spec(v, maker, mint_a, mint_b, seed, deposit, receive, now) == Ok::<LedgerView, EscrowFault>(w),
    ensures
        vault_of(v, maker, mint_a, seed) matches Some(vault) && w.tokens.contains_key(vault@) && w.tokens[vault@].amount == deposit,
        token_address_spec(v.associated_token_program@, v.token_program@, maker@, mint_a@) matches Some(ata)
            && w.balance(ata.0@) == v.balance(ata.0@) - deposit,
        offer_address_spec(v.program_id@, maker@, seed) matches Some(esc) && w.offers.contains_key(esc.0@)
            && w.offers[esc.0@] == (EscrowOffer { seed, maker, mint_a, mint_b, receive, created_at: now, bump: esc.1 }),
        offer_address_spec(v.program_id@, maker@, seed) matches Some(esc) && vault_of(v, maker, mint_a, seed) matches Some(vault)
            && w.tokens[vault@].owner == esc.0,
        w.lamports_of(maker@) == v.lamports_of(maker@) - v.record_rent - v.token_rent,
{
}

/// Settling succeeds only once the lock window has passed; before that it is
/// refused with `EscrowStillLocked`.
pub proof fn law_settle_waits_for_unlock(
    v: LedgerView,
    taker: Address,
    maker: Address,
    mint_a: Address,
    mint_b: Address,
    seed: u64,
    now: i64,
    earlier: i64,
)
    ensures
        take_spec(v, taker, maker, mint_a, mint_b, seed, now) is Ok ==> (offer_address_spec(v.program_id@, maker@, seed) matches Some(esc)
            && v.offers.contains_key(esc.0@) && unlocked(v.offers[esc.0@].created_at, now)
            && (!unlocked(v.offers[esc.0@].created_at, earlier) ==> take_spec(v, taker, maker, mint_a, mint_b, seed, earlier)
                == Err::<LedgerView, EscrowFault>(EscrowFault::EscrowStillLocked))),
{
}

/// Settling hands the taker the whole vault and the maker exactly `receive`
/// of asset B, and leaves neither the vault nor the record. The derived
/// accounts are assumed distinct, as distinct seeds give distinct addresses.
pub proof fn law_settle_pays_both_sides(
    v: LedgerView,
    taker: Address,
    maker: Address,
    mint_a: Address,
    mint_b: Address,
    seed: u64,
    now: i64,
    w: LedgerView,
)
    requires
        take_spec(v, taker, maker, mint_a, mint_b, seed, now) == Ok::<LedgerView, EscrowFault>(w),
        settle_addresses_spec(v, taker, maker, mint_a, mint_b, seed) matches Some(a) && a.0@ != a.1@ && a.0@ != a.2@
            && a.0@ != a.4@ && a.1@ != a.2@ && a.1@ != a.4@ && a.2@ != a.4@,
    ensures
        settle_addresses_spec(v, taker, maker, mint_a, mint_b, seed) matches Some(a) && v.offers.contains_key(a.3.0@)
            && v.tokens.contains_key(a.4@)
            && w.balance(a.0@) == v.balance(a.0@) + v.tokens[a.4@].amount
            && w.balance(a.2@) == v.balance(a.2@) + v.offers[a.3.0@].receive
            && w.balance(a.1@) == v.balance(a.1@) - v.offers[a.3.0@].receive
            && !w.tokens.contains_key(a.4@) && !w.offers.contains_key(a.3.0@),
        taker@ != maker@ ==> w.lamports_of(maker@) == v.lamports_of(maker@) + v.record_rent + v.token_rent,
{
}

/// Before the lock window has passed, settling an offer whose accounts check
/// out is refused with `EscrowStillLocked`.
pub proof fn law_settle_locked_before_window(
    v: LedgerView,
    taker: Address,
    maker: Address,
    mint_a: Address,
    mint_b: Address,
    seed: u64,
    now: i64,
)
    requires
        settle_accounts_spec(v, taker, maker, mint_a, mint_b, seed) matches Ok(p) && !unlocked(p.0.offer.created_at, now),
    ensures
        take_spec(v, taker, maker, mint_a, mint_b, seed, now) == Err::<LedgerView, EscrowFault>(EscrowFault::EscrowStillLocked),
{
}

/// Returning an offer to its maker, by the maker or by anyone, hands the maker
/// the whole vault and leaves neither the vault nor the record. The maker's
/// account and the vault are assumed distinct, as their seeds are.
pub proof fn law_cancel_returns_deposit(v: LedgerView, maker: Address, mint_a: Address, seed: u64, w: LedgerView)
    requires
        cancel_spec(v, maker, mint_a, seed) == Ok::<LedgerView, EscrowFault>(w),
        cancel_accounts_spec(v, maker, mint_a, seed) matches Ok(f) && f.maker_ata_a@ != f.vault@,
    ensures
        cancel_accounts_spec(v, maker, mint_a, seed) matches Ok(f) && v.tokens.contains_key(f.vault@)
            && w.balance(f.maker_ata_a@) == v.balance(f.maker_ata_a@) + v.tokens[f.vault@].amount
            && !w.tokens.contains_key(f.vault@) && w.offers == v.offers.remove(f.escrow@)
            && (forall|k: Seq<u8>| k != f.maker_ata_a@ && k != f.vault@ ==> #[trigger] w.tokens.contains_key(k) == v.tokens.contains_key(k)
                && w.balance(k) == v.balance(k)),
        w.lamports_of(maker@) == v.lamports_of(maker@) + v.record_rent + v.token_rent,
        forall|k: Seq<u8>| k != maker@ ==> #[trigger] w.lamports_of(k) == v.lamports_of(k),
{
}

/// Once an offer is settled, every later settle or refund of it is refused.
pub proof fn law_settled_offer_is_gone(
    v: LedgerView,
    taker: Address,
    maker: Address,
    mint_a: Address,
    mint_b: Address,
    seed: u64,
    now: i64,
    w: LedgerView,
    taker2: Address,
    mint_a2: Address,
    mint_b2: Address,
    now2: i64,
)
    requires
        take_spec(v, taker, maker, mint_a, mint_b, seed, now) == Ok::<LedgerView, EscrowFault>(w),
    ensures
        take_spec(w, taker2, maker, mint_a2, mint_b2, seed, now2) is Err,
        cancel_spec(w, maker, mint_a2, seed) is Err,
{
}

/// Once an offer is returned to its maker, every later settle or refund of it
/// is refused.
pub proof fn law_cancelled_offer_is_gone(
    v: LedgerView,
    maker: Address,
    mint_a: Address,
    seed: u64,
    w: LedgerView,
    taker2: Address,
    mint_a2: Address,
    mint_b2: Address,
    now2: i64,
)
    requires
        cancel_spec(v, maker, mint_a, seed) == Ok::<LedgerView, EscrowFault>(w),
    ensures
        take_spec(w, taker2, maker, mint_a2, mint_b2, seed, now2) is Err,
        cancel_spec(w, maker, mint_a2, seed) is Err,
{
}

/// Two refunds of one offer scheduled under different task ids are two tasks:
/// their ids differ and they call the same refund in the same way.
pub proof fn law_schedules_are_independent(
    v: LedgerView,
    f: CrankCancelEscrowFlow,
    id1: u16,
    id2: u16,
    r1: crate::flows::queue_cancel::TaskRequest,
    r2: crate::flows::queue_cancel::TaskRequest,
)
    requires
        is_refund_task(r1, v, f, id1),
        is_refund_task(r2, v, f, id2),
        id1 != id2,
    ensures
        r1.id != r2.id,
        r1.call.program_id == r2.call.program_id,
        r1.call.accounts@ == r2.call.accounts@,
        r1.call.data@ == r2.call.data@,
        r1.queue_authority == r2.queue_authority,
{
}

/// An offer opened and then settled: the taker gains exactly the deposit and
/// the maker exactly `receive` of asset B. The derived accounts are assumed
/// distinct, as in `law_settle_pays_both_sides`.
pub proof fn law_open_then_settle(
    v0: LedgerView,
    taker: Address,
    maker: Address,
    mint_a: Address,
    mint_b: Address,
    seed: u64,
    deposit: u64,
    receive: u64,
    created: i64,
    v1: LedgerView,
    now: i64,
    v2: LedgerView,
)
    requires
        make_spec(v0, maker, mint_a, mint_b, seed, deposit, receive, created) == Ok::<LedgerView, EscrowFault>(v1),
        take_spec(v1, taker, maker, mint_a, mint_b, seed, now) == Ok::<LedgerView, EscrowFault>(v2),
        settle_addresses_spec(v1, taker, maker, mint_a, mint_b, seed) matches Some(a) && a.0@ != a.1@ && a.0@ != a.2@
            && a.0@ != a.4@ && a.1@ != a.2@ && a.1@ != a.4@ && a.2@ != a.4@,
    ensures
        settle_addresses_spec(v1, taker, maker, mint_a, mint_b, seed) matches Some(a)
            && v2.balance(a.0@) == v1.balance(a.0@) + deposit
            && v2.balance(a.2@) == v1.balance(a.2@) + receive,
{
    law_create_locks_deposit(v0, maker, mint_a, mint_b, seed, deposit, receive, created, v1);
    law_settle_pays_both_sides(v1, taker, maker, mint_a, mint_b, seed, now, v2);
}

/// An offer opened and then returned: the maker's asset-A balance is back
/// where it was before the offer. The maker's account and the vault are
/// assumed distinct, as their seeds are.
pub proof fn law_open_then_cancel(
    v0: LedgerView,
    maker: Address,
    mint_a: Address,
    mint_b: Address,
    seed: u64,
    deposit: u64,
    receive: u64,
    created: i64,
    v1: LedgerView,
    v2: LedgerView,
)
    requires
        make_spec(v0, maker, mint_a, mint_b, seed, deposit, receive, created) == Ok::<LedgerView, EscrowFault>(v1),
        cancel_spec(v1, maker, mint_a, seed) == Ok::<LedgerView, EscrowFault>(v2),
        cancel_accounts_spec(v1, maker, mint_a, seed) matches Ok(f) && f.maker_ata_a@ != f.vault@,
    ensures
        cancel_accounts_spec(v1, maker, mint_a, seed) matches Ok(f)
            && v2.balance(f.maker_ata_a@) == v1.balance(f.maker_ata_a@) + deposit
            && v2.balance(f.maker_ata_a@) == v0.balance(f.maker_ata_a@),
{
    law_create_locks_deposit(v0, maker, mint_a, mint_b, seed, deposit, receive, created, v1);
    law_cancel_returns_deposit(v1, maker, mint_a, seed, v2);
}

/// Opening, settling or returning one offer leaves every other offer intact:
/// its record as it was, its vault with the same balance. The other offer's
/// record and vault are assumed apart from every account the operation derives.
pub proof fn law_other_offers_untouched(
    v: LedgerView,
    w: LedgerView,
    esc: Seq<u8>,
    vault: Seq<u8>,
    taker: Address,
    maker: Address,
    mint_a: Address,
    mint_b: Address,
    seed: u64,
    deposit: u64,
    receive: u64,
    now: i64,
)
    requires
        v.offers.contains_key(esc),
        v.tokens.contains_key(vault),
        make_spec(v, maker, mint_a, mint_b, seed, deposit, receive, now) == Ok::<LedgerView, EscrowFault>(w)
            || take_spec(v, taker, maker, mint_a, mint_b, seed, now) == Ok::<LedgerView, EscrowFault>(w)
            || cancel_spec(v, maker, mint_a, seed) == Ok::<LedgerView, EscrowFault>(w),
        offer_address_spec(v.program_id@, maker@, seed) matches Some(e) && e.0@ != esc,
        vault_of(v, maker, mint_a, seed) matches Some(x) && x@ != vault,
        token_address_spec(v.associated_token_program@, v.token_program@, maker@, mint_a@) matches Some(x) && x.0@ != vault,
        settle_addresses_spec(v, taker, maker, mint_a, mint_b, seed) matches Some(a) && a.0@ != vault && a.1@ != vault && a.2@ != vault,
    ensures
        w.offers.contains_key(esc) && w.offers[esc] == v.offers[esc],
        w.tokens.contains_key(vault) && w.tokens[vault] == v.tokens[vault],
{
}

/// Only the maker can refund: a refund signed by anyone else is refused,
/// whatever the ledger holds.
pub proof fn law_refund_only_by_maker(v: LedgerView, signer: Address, maker: Address, mint_a: Address, seed: u64)
    requires
        signer@ != maker@,
    ensures
        refund_spec(v, signer, maker, mint_a, seed) == Err::<LedgerView, EscrowFault>(EscrowFault::ConstraintSigner),
{
}

} // verus!
