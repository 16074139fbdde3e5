use tuktuk_escrow::address::{offer_address, token_address, Address};
use tuktuk_escrow::{auto_refund, auto_refund_checked, make, CrankCancelEscrowFlow, SettleEscrowFlow, refund, schedule, take, EscrowFault, Ledger, TaskTrigger, OFFER_LOCK_WINDOW};

const PROGRAM: Address = [7u8; 32];
const TOKEN: Address = [6u8; 32];
const ATA: Address = [5u8; 32];
const SYSTEM: Address = [0u8; 32];
const MINT_A: Address = [1u8; 32];
const MINT_B: Address = [2u8; 32];
const MINT_C: Address = [3u8; 32];
const MAKER: Address = [10u8; 32];
const TAKER: Address = [20u8; 32];
const CREATED: i64 = 1_700_000_000;
const RECORD_RENT: u64 = 1_900_000;
const TOKEN_RENT: u64 = 2_000_000;

fn ata(owner: &Address, mint: &Address) -> Address {
    token_address(&ATA, &TOKEN, owner, mint).unwrap().0
}

fn escrow_of(maker: &Address, seed: u64) -> Address {
    offer_address(&PROGRAM, maker, seed).unwrap().0
}

fn vault_of(maker: &Address, seed: u64) -> Address {
    ata(&escrow_of(maker, seed), &MINT_A)
}

/// A ledger with three assets; the maker holds 1000 of A, the taker 500 of B,
/// and each holds 10^9 lamports.
fn setup() -> Ledger {
    let mut l = Ledger::new(PROGRAM, TOKEN, ATA, SYSTEM, RECORD_RENT, TOKEN_RENT);
    l.credit_lamports(&MAKER, 1_000_000_000).unwrap();
    l.credit_lamports(&TAKER, 1_000_000_000).unwrap();
    l.add_mint(MINT_A, 6).unwrap();
    l.add_mint(MINT_B, 9).unwrap();
    l.add_mint(MINT_C, 2).unwrap();
    l.open_token_account(ata(&MAKER, &MINT_A), MINT_A, MAKER, false, &MAKER).unwrap();
    l.open_token_account(ata(&TAKER, &MINT_B), MINT_B, TAKER, false, &TAKER).unwrap();
    l.mint_to(&ata(&MAKER, &MINT_A), 1000).unwrap();
    l.mint_to(&ata(&TAKER, &MINT_B), 500).unwrap();
    l
}

fn open_offer(l: &mut Ledger, seed: u64, deposit: u64, receive: u64) {
    make(l, MAKER, MINT_A, MINT_B, seed, deposit, receive, CREATED).unwrap();
}

fn offer_exists(l: &Ledger, seed: u64) -> bool {
    l.offers.get(&escrow_of(&MAKER, seed)).is_some()
}

fn vault_exists(l: &Ledger, seed: u64) -> bool {
    l.token_accounts.get(&vault_of(&MAKER, seed)).is_some()
}

#[test]
fn make_records_offer_and_locks_deposit() {
    let mut l = setup();
    open_offer(&mut l, 1, 100, 50);
    let offer = l.offers.get(&escrow_of(&MAKER, 1)).unwrap();
    assert_eq!(offer.seed, 1);
    assert_eq!(offer.maker, MAKER);
    assert_eq!(offer.mint_a, MINT_A);
    assert_eq!(offer.mint_b, MINT_B);
    assert_eq!(offer.receive, 50);
    assert_eq!(offer.created_at, CREATED);
    assert_eq!(offer.bump, offer_address(&PROGRAM, &MAKER, 1).unwrap().1);
    assert_eq!(l.balance(&vault_of(&MAKER, 1)), 100);
    assert_eq!(l.balance(&ata(&MAKER, &MINT_A)), 900);
    assert_eq!(l.lamports(&MAKER), 1_000_000_000 - 2 * TOKEN_RENT - RECORD_RENT);
}

#[test]
fn make_without_lamports_for_rent_is_refused() {
    let mut m = Ledger::new(PROGRAM, TOKEN, ATA, SYSTEM, RECORD_RENT, TOKEN_RENT);
    m.add_mint(MINT_A, 6).unwrap();
    m.add_mint(MINT_B, 9).unwrap();
    m.credit_lamports(&MAKER, TOKEN_RENT + RECORD_RENT).unwrap();
    m.open_token_account(ata(&MAKER, &MINT_A), MINT_A, MAKER, false, &MAKER).unwrap();
    m.mint_to(&ata(&MAKER, &MINT_A), 100).unwrap();
    let r = make(&mut m, MAKER, MINT_A, MINT_B, 1, 10, 5, CREATED);
    assert_eq!(r, Err(EscrowFault::InsufficientLamports));
    assert_eq!(m.lamports(&MAKER), RECORD_RENT);
    assert!(m.offers.get(&escrow_of(&MAKER, 1)).is_none());
    assert_eq!(m.balance(&ata(&MAKER, &MINT_A)), 100);
}

#[test]
fn second_make_with_same_seed_collides() {
    let mut l = setup();
    open_offer(&mut l, 1, 100, 50);
    let r = make(&mut l, MAKER, MINT_A, MINT_B, 1, 10, 5, CREATED + 7);
    assert_eq!(r, Err(EscrowFault::AccountAlreadyInUse));
    assert_eq!(l.balance(&vault_of(&MAKER, 1)), 100);
    assert_eq!(l.balance(&ata(&MAKER, &MINT_A)), 900);
    assert_eq!(l.offers.get(&escrow_of(&MAKER, 1)).unwrap().created_at, CREATED);
}

#[test]
fn distinct_seeds_give_concurrent_offers() {
    let mut l = setup();
    open_offer(&mut l, 1, 100, 50);
    open_offer(&mut l, 2, 200, 70);
    assert_ne!(escrow_of(&MAKER, 1), escrow_of(&MAKER, 2));
    assert_eq!(l.balance(&vault_of(&MAKER, 1)), 100);
    assert_eq!(l.balance(&vault_of(&MAKER, 2)), 200);
    assert_eq!(l.balance(&ata(&MAKER, &MINT_A)), 700);
}

#[test]
fn make_with_insufficient_balance_changes_nothing() {
    let mut l = setup();
    let r = make(&mut l, MAKER, MINT_A, MINT_B, 1, 1001, 50, CREATED);
    assert_eq!(r, Err(EscrowFault::InsufficientFunds));
    assert!(!offer_exists(&l, 1));
    assert!(!vault_exists(&l, 1));
    assert_eq!(l.balance(&ata(&MAKER, &MINT_A)), 1000);
}

#[test]
fn make_with_unknown_mint_is_refused() {
    let mut l = setup();
    let r = make(&mut l, MAKER, [9u8; 32], MINT_B, 1, 10, 5, CREATED);
    assert_eq!(r, Err(EscrowFault::AccountNotInitialized));
}

#[test]
fn make_without_maker_account_is_refused() {
    let mut l = setup();
    let r = make(&mut l, TAKER, MINT_A, MINT_B, 1, 10, 5, CREATED);
    assert_eq!(r, Err(EscrowFault::AccountNotInitialized));
}

#[test]
fn settle_before_unlock_is_refused_and_changes_nothing() {
    let mut l = setup();
    open_offer(&mut l, 1, 100, 50);
    let r = take(&mut l, TAKER, MAKER, MINT_A, MINT_B, 1, CREATED + OFFER_LOCK_WINDOW - 1);
    assert_eq!(r, Err(EscrowFault::EscrowStillLocked));
    assert!(offer_exists(&l, 1));
    assert_eq!(l.balance(&vault_of(&MAKER, 1)), 100);
    assert_eq!(l.balance(&ata(&TAKER, &MINT_B)), 500);
    assert!(l.token_accounts.get(&ata(&TAKER, &MINT_A)).is_none());
    assert!(l.token_accounts.get(&ata(&MAKER, &MINT_B)).is_none());
}

#[test]
fn end_to_end_settle_after_lock_window() {
    let mut l = setup();
    open_offer(&mut l, 1, 100, 50);
    assert_eq!(take(&mut l, TAKER, MAKER, MINT_A, MINT_B, 1, CREATED), Err(EscrowFault::EscrowStillLocked));
    take(&mut l, TAKER, MAKER, MINT_A, MINT_B, 1, CREATED + OFFER_LOCK_WINDOW).unwrap();
    assert_eq!(l.balance(&ata(&TAKER, &MINT_A)), 100);
    assert_eq!(l.balance(&ata(&MAKER, &MINT_B)), 50);
    assert_eq!(l.balance(&ata(&TAKER, &MINT_B)), 450);
    assert_eq!(l.balance(&ata(&MAKER, &MINT_A)), 900);
    assert!(!offer_exists(&l, 1));
    assert!(!vault_exists(&l, 1));
    assert_eq!(l.lamports(&MAKER), 1_000_000_000 - TOKEN_RENT);
    assert_eq!(l.lamports(&TAKER), 1_000_000_000 - 3 * TOKEN_RENT);
}

#[test]
fn settle_with_insufficient_payment_changes_nothing() {
    let mut l = setup();
    open_offer(&mut l, 1, 100, 501);
    let r = take(&mut l, TAKER, MAKER, MINT_A, MINT_B, 1, CREATED + OFFER_LOCK_WINDOW);
    assert_eq!(r, Err(EscrowFault::InsufficientFunds));
    assert!(offer_exists(&l, 1));
    assert_eq!(l.balance(&vault_of(&MAKER, 1)), 100);
    assert_eq!(l.balance(&ata(&TAKER, &MINT_B)), 500);
}

#[test]
fn settle_that_would_overflow_rolls_back_payment() {
    let mut l = setup();
    open_offer(&mut l, 1, 100, 50);
    l.open_token_account(ata(&TAKER, &MINT_A), MINT_A, TAKER, false, &TAKER).unwrap();
    l.mint_to(&ata(&TAKER, &MINT_A), u64::MAX - 99).unwrap();
    let r = take(&mut l, TAKER, MAKER, MINT_A, MINT_B, 1, CREATED + OFFER_LOCK_WINDOW);
    assert_eq!(r, Err(EscrowFault::Overflow));
    assert_eq!(l.balance(&ata(&TAKER, &MINT_B)), 500);
    assert!(l.token_accounts.get(&ata(&MAKER, &MINT_B)).is_none());
    assert_eq!(l.balance(&vault_of(&MAKER, 1)), 100);
    assert!(offer_exists(&l, 1));
}

#[test]
fn settle_naming_another_asset_is_refused() {
    let mut l = setup();
    open_offer(&mut l, 1, 100, 50);
    l.open_token_account(ata(&TAKER, &MINT_C), MINT_C, TAKER, false, &TAKER).unwrap();
    let r = take(&mut l, TAKER, MAKER, MINT_A, MINT_C, 1, CREATED + OFFER_LOCK_WINDOW);
    assert_eq!(r, Err(EscrowFault::ConstraintHasOne));
    assert!(offer_exists(&l, 1));
}

#[test]
fn manual_cancel_before_unlock_returns_deposit() {
    let mut l = setup();
    open_offer(&mut l, 1, 100, 50);
    refund(&mut l, MAKER, MAKER, MINT_A, 1).unwrap();
    assert_eq!(l.balance(&ata(&MAKER, &MINT_A)), 1000);
    assert_eq!(l.lamports(&MAKER), 1_000_000_000 - TOKEN_RENT);
    assert!(!offer_exists(&l, 1));
    assert!(!vault_exists(&l, 1));
    assert_eq!(auto_refund(&mut l, MAKER, MINT_A, 1), Err(EscrowFault::AccountNotInitialized));
    assert_eq!(l.balance(&ata(&MAKER, &MINT_A)), 1000);
}

#[test]
fn auto_refund_returns_deposit() {
    let mut l = setup();
    open_offer(&mut l, 3, 250, 10);
    assert_eq!(l.balance(&ata(&MAKER, &MINT_A)), 750);
    auto_refund(&mut l, MAKER, MINT_A, 3).unwrap();
    assert_eq!(l.balance(&ata(&MAKER, &MINT_A)), 1000);
    assert_eq!(l.lamports(&MAKER), 1_000_000_000 - TOKEN_RENT);
    assert_eq!(l.lamports(&TAKER), 1_000_000_000 - TOKEN_RENT);
    assert!(!offer_exists(&l, 3));
    assert!(!vault_exists(&l, 3));
}

#[test]
fn settled_offer_cannot_be_refunded_or_settled_again() {
    let mut l = setup();
    open_offer(&mut l, 1, 100, 50);
    take(&mut l, TAKER, MAKER, MINT_A, MINT_B, 1, CREATED + OFFER_LOCK_WINDOW).unwrap();
    let later = CREATED + 2 * OFFER_LOCK_WINDOW;
    assert!(take(&mut l, TAKER, MAKER, MINT_A, MINT_B, 1, later).is_err());
    assert_eq!(refund(&mut l, MAKER, MAKER, MINT_A, 1), Err(EscrowFault::AccountNotInitialized));
    assert_eq!(auto_refund(&mut l, MAKER, MINT_A, 1), Err(EscrowFault::AccountNotInitialized));
    assert_eq!(l.balance(&ata(&TAKER, &MINT_A)), 100);
    assert_eq!(l.balance(&ata(&MAKER, &MINT_A)), 900);
}

#[test]
fn refunded_offer_cannot_be_settled() {
    let mut l = setup();
    open_offer(&mut l, 1, 100, 50);
    auto_refund(&mut l, MAKER, MINT_A, 1).unwrap();
    let r = take(&mut l, TAKER, MAKER, MINT_A, MINT_B, 1, CREATED + OFFER_LOCK_WINDOW);
    assert_eq!(r, Err(EscrowFault::AccountNotInitialized));
    assert_eq!(refund(&mut l, MAKER, MAKER, MINT_A, 1), Err(EscrowFault::AccountNotInitialized));
    assert_eq!(l.balance(&ata(&TAKER, &MINT_B)), 500);
}

#[test]
fn refund_by_another_maker_finds_no_offer() {
    let mut l = setup();
    open_offer(&mut l, 1, 100, 50);
    l.open_token_account(ata(&TAKER, &MINT_A), MINT_A, TAKER, false, &TAKER).unwrap();
    assert_eq!(refund(&mut l, TAKER, TAKER, MINT_A, 1), Err(EscrowFault::AccountNotInitialized));
    assert_eq!(refund(&mut l, TAKER, MAKER, MINT_A, 1), Err(EscrowFault::ConstraintSigner));
    assert_eq!(l.balance(&vault_of(&MAKER, 1)), 100);
    assert_eq!(l.balance(&ata(&MAKER, &MINT_A)), 900);
    assert!(offer_exists(&l, 1));
}

#[test]
fn schedule_twice_builds_two_tasks_and_moves_nothing() {
    let mut l = setup();
    open_offer(&mut l, 1, 100, 50);
    let t1 = schedule(&l, MAKER, MINT_A, 1, 4).unwrap();
    let t2 = schedule(&l, MAKER, MINT_A, 1, 5).unwrap();
    assert_eq!(t1.id, 4);
    assert_eq!(t2.id, 5);
    for t in [&t1, &t2] {
        assert_eq!(t.trigger, TaskTrigger::Now);
        assert_eq!(t.crank_reward, Some(1_000_001));
        assert_eq!(t.free_tasks, 0);
        assert_eq!(t.description, b"refund_escrow".to_vec());
        assert_eq!(t.call.program_id, PROGRAM);
        assert_eq!(t.call.data, vec![64u8, 219, 182, 3, 234, 13, 10, 209]);
        let addrs: Vec<Address> = t.call.accounts.iter().map(|a| a.address).collect();
        assert_eq!(
            addrs,
            vec![MAKER, MINT_A, ata(&MAKER, &MINT_A), escrow_of(&MAKER, 1), vault_of(&MAKER, 1), TOKEN, SYSTEM]
        );
        let writable: Vec<bool> = t.call.accounts.iter().map(|a| a.writable).collect();
        assert_eq!(writable, vec![true, false, true, true, true, false, false]);
        assert_eq!(t.compiled.accounts.len(), 8);
        assert_eq!(t.compiled.num_rw_signers, 0);
        assert_eq!(t.compiled.num_ro_signers, 0);
        assert_eq!(t.compiled.num_rw, 4);
        let ix = &t.compiled.instructions[0];
        assert_eq!(t.compiled.accounts[ix.program_id_index as usize], PROGRAM);
        for (j, a) in t.call.accounts.iter().enumerate() {
            assert_eq!(t.compiled.accounts[ix.accounts[j] as usize], a.address);
        }
        assert_eq!(ix.data, t.call.data);
    }
    assert_eq!(t1.queue_authority, t2.queue_authority);
    assert!(offer_exists(&l, 1));
    assert_eq!(l.balance(&vault_of(&MAKER, 1)), 100);
    assert_eq!(l.balance(&ata(&MAKER, &MINT_A)), 900);
}

#[test]
fn schedule_without_offer_is_refused() {
    let l = setup();
    assert_eq!(schedule(&l, MAKER, MINT_A, 9, 1).err(), Some(EscrowFault::AccountNotInitialized));
}

#[test]
fn time_checked_auto_refund_waits_for_unlock() {
    let mut l = setup();
    open_offer(&mut l, 1, 100, 50);
    let early = CREATED + OFFER_LOCK_WINDOW - 1;
    assert_eq!(auto_refund_checked(&mut l, MAKER, MINT_A, 1, early, true), Err(EscrowFault::EscrowStillLocked));
    assert!(offer_exists(&l, 1));
    assert_eq!(l.balance(&vault_of(&MAKER, 1)), 100);
    auto_refund_checked(&mut l, MAKER, MINT_A, 1, early + 1, true).unwrap();
    assert_eq!(l.balance(&ata(&MAKER, &MINT_A)), 1000);
    assert!(!vault_exists(&l, 1));
}

#[test]
fn unchecked_auto_refund_runs_before_unlock() {
    let mut l = setup();
    open_offer(&mut l, 1, 100, 50);
    auto_refund_checked(&mut l, MAKER, MINT_A, 1, CREATED, false).unwrap();
    assert_eq!(l.balance(&ata(&MAKER, &MINT_A)), 1000);
    assert!(!offer_exists(&l, 1));
}

#[test]
fn release_to_taker_closes_vault_and_leaves_record() {
    let mut l = setup();
    open_offer(&mut l, 1, 100, 50);
    let f = SettleEscrowFlow::load(&mut l, TAKER, MAKER, MINT_A, MINT_B, 1).unwrap();
    let before = l.lamports(&MAKER);
    f.release_to_taker(&mut l).unwrap();
    assert_eq!(l.balance(&ata(&TAKER, &MINT_A)), 100);
    assert!(!vault_exists(&l, 1));
    assert!(offer_exists(&l, 1));
    assert_eq!(l.lamports(&MAKER), before + TOKEN_RENT);
}

#[test]
fn release_to_maker_closes_vault_and_leaves_record() {
    let mut l = setup();
    open_offer(&mut l, 1, 100, 50);
    let f = CrankCancelEscrowFlow::load(&l, MAKER, MINT_A, 1).unwrap();
    let before = l.lamports(&MAKER);
    f.release_to_maker(&mut l).unwrap();
    assert_eq!(l.balance(&ata(&MAKER, &MINT_A)), 1000);
    assert!(!vault_exists(&l, 1));
    assert!(offer_exists(&l, 1));
    assert_eq!(l.lamports(&MAKER), before + TOKEN_RENT);
}
