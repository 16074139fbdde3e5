use vstd::prelude::*;

verus! {

/// Why an operation on the escrow ledger was refused.
#[derive(Debug, Clone, Copy, PartialEq, Eq, Structural)]
pub enum EscrowFault {
    /// The offer cannot be settled before its lock window has passed.
    EscrowStillLocked,
    /// An account that the operation creates exists already.
    AccountAlreadyInUse,
    /// An account that the operation reads does not exist.
    AccountNotInitialized,
    /// The operation was not signed by the account that must sign it.
    ConstraintSigner,
    /// The offer record names another maker or other mints.
    ConstraintHasOne,
    /// No address could be derived from the seeds.
    ConstraintSeeds,
    /// A token account holds another asset than the one named.
    ConstraintTokenMint,
    /// A token account belongs to another owner than the one named.
    ConstraintTokenOwner,
    /// The decimals given do not match the asset's.
    MintDecimalsMismatch,
    /// The source account holds less than the amount.
    InsufficientFunds,
    /// The paying wallet holds fewer lamports than the rent of a new account.
    InsufficientLamports,
    /// A balance would exceed the largest 64-bit amount.
    Overflow,
    /// A token account still holds tokens and cannot be closed.
    NonZeroBalance,
}

} // verus!
