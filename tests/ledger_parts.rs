use tuktuk_escrow::address::{
    address_bytes, offer_address, queue_authority, same_address, selector, token_address, u64_le_bytes,
};
use tuktuk_escrow::registry::Registry;
use tuktuk_escrow::{EscrowFault, Ledger};

const A: [u8; 32] = [1u8; 32];
const B: [u8; 32] = [2u8; 32];

fn ledger_with_account(amount: u64) -> Ledger {
    let mut l = Ledger::new([7u8; 32], [6u8; 32], [5u8; 32], [0u8; 32], 5, 3);
    l.add_mint(A, 6).unwrap();
    l.credit_lamports(&[10u8; 32], 10).unwrap();
    l.open_token_account([40u8; 32], A, [10u8; 32], false, &[10u8; 32]).unwrap();
    l.open_token_account([41u8; 32], A, [11u8; 32], false, &[10u8; 32]).unwrap();
    l.mint_to(&[40u8; 32], amount).unwrap();
    l
}

#[test]
fn selector_is_leading_digest_bytes() {
    let name = b"global:auto_refund".to_vec();
    assert_eq!(selector(&name), vec![64u8, 219, 182, 3, 234, 13, 10, 209]);
    assert_eq!(selector(&Vec::new()), vec![227u8, 176, 196, 66, 152, 252, 28, 20]);
}

#[test]
fn le_bytes_of_u64() {
    assert_eq!(u64_le_bytes(0x0102_0304_0506_0708), vec![8u8, 7, 6, 5, 4, 3, 2, 1]);
    assert_eq!(u64_le_bytes(1), vec![1u8, 0, 0, 0, 0, 0, 0, 0]);
    assert_eq!(u64_le_bytes(u64::MAX), vec![255u8; 8]);
}

#[test]
fn address_helpers() {
    assert!(same_address(&A, &A));
    assert!(!same_address(&A, &B));
    let mut c = A;
    c[31] = 9;
    assert!(!same_address(&A, &c));
    assert_eq!(address_bytes(&B), vec![2u8; 32]);
}

#[test]
fn derived_addresses_depend_on_their_seeds() {
    let p = [7u8; 32];
    let x = offer_address(&p, &A, 1).unwrap();
    assert_eq!(offer_address(&p, &A, 1).unwrap(), x);
    assert_ne!(offer_address(&p, &A, 2).unwrap().0, x.0);
    assert_ne!(offer_address(&p, &B, 1).unwrap().0, x.0);
    assert_ne!(x.0, p);
    assert_ne!(x.0, A);
    let t = token_address(&[5u8; 32], &[6u8; 32], &A, &B).unwrap();
    assert_ne!(t.0, token_address(&[5u8; 32], &[6u8; 32], &B, &A).unwrap().0);
    let q = queue_authority(&p).unwrap();
    assert_ne!(q.0, x.0);
    assert_eq!(queue_authority(&p).unwrap(), q);
}

#[test]
fn registry_insert_set_remove() {
    let mut r: Registry<u64> = Registry::new();
    r.insert(A, 3);
    r.insert(B, 4);
    assert_eq!(r.get(&A), Some(3));
    r.set(A, 8);
    assert_eq!(r.get(&A), Some(8));
    r.remove(&A);
    assert_eq!(r.get(&A), None);
    assert_eq!(r.get(&B), Some(4));
    let s = r.snapshot();
    assert_eq!(s.get(&B), Some(4));
}

#[test]
fn opening_accounts_charges_rent() {
    let mut l = ledger_with_account(100);
    assert_eq!(l.lamports(&[10u8; 32]), 4);
    let r = l.open_token_account([42u8; 32], A, [10u8; 32], false, &[10u8; 32]);
    assert_eq!(r, Ok(()));
    assert_eq!(l.lamports(&[10u8; 32]), 1);
    let r = l.open_token_account([43u8; 32], A, [10u8; 32], false, &[10u8; 32]);
    assert_eq!(r, Err(EscrowFault::InsufficientLamports));
    assert_eq!(l.lamports(&[10u8; 32]), 1);
}

#[test]
fn credit_lamports_overflow_is_refused() {
    let mut l = ledger_with_account(0);
    l.credit_lamports(&[12u8; 32], u64::MAX).unwrap();
    assert_eq!(l.credit_lamports(&[12u8; 32], 1), Err(EscrowFault::Overflow));
    assert_eq!(l.lamports(&[12u8; 32]), u64::MAX);
}

#[test]
fn mint_to_overflow_is_refused() {
    let mut l = ledger_with_account(u64::MAX);
    assert_eq!(l.mint_to(&[40u8; 32], 1), Err(EscrowFault::Overflow));
    assert_eq!(l.balance(&[40u8; 32]), u64::MAX);
}

#[test]
fn open_existing_account_collides() {
    let mut l = ledger_with_account(0);
    let p = [10u8; 32];
    assert_eq!(l.open_token_account([40u8; 32], A, [10u8; 32], false, &p), Err(EscrowFault::AccountAlreadyInUse));
    assert_eq!(l.open_token_account([40u8; 32], A, [10u8; 32], true, &p), Ok(()));
    assert_eq!(l.open_token_account([40u8; 32], A, [12u8; 32], true, &p), Err(EscrowFault::ConstraintTokenOwner));
    assert_eq!(l.lamports(&p), 4);
    assert_eq!(l.add_mint(A, 3), Err(EscrowFault::AccountAlreadyInUse));
}
