use crate::address::{same_address, Address};
use crate::faults::EscrowFault;
use crate::models::{EscrowOffer, Mint, TokenAccount};
use crate::registry::Registry;
use vstd::prelude::*;

verus! {

/// The accounts that the escrow program reads and writes, and the ids of the
/// programs that their addresses are derived under.
pub struct Ledger {
    pub program_id: Address,
    pub token_program: Address,
    pub associated_token_program: Address,
    pub system_program: Address,
    pub record_rent: u64,
    pub token_rent: u64,
    pub native: Registry<u64>,
    pub offers: Registry<EscrowOffer>,
    pub token_accounts: Registry<TokenAccount>,
    pub mints: Registry<Mint>,
}

/// What a ledger holds: each kind of account by its address.
pub ghost struct LedgerView {
    pub program_id: Address,
    pub token_program: Address,
    pub associated_token_program: Address,
    pub system_program: Address,
    pub record_rent: u64,
    pub token_rent: u64,
    pub lamports: Map<Seq<u8>, u64>,
    pub offers: Map<Seq<u8>, EscrowOffer>,
    pub tokens: Map<Seq<u8>, TokenAccount>,
    pub mints: Map<Seq<u8>, Mint>,
}

impl View for Ledger {
    type V = LedgerView;

    open spec fn view(&self) -> LedgerView {
        LedgerView {
            program_id: self.program_id,
            token_program: self.token_program,
            associated_token_program: self.associated_token_program,
            system_program: self.system_program,
            record_rent: self.record_rent,
            token_rent: self.token_rent,
            lamports: self.native@,
            offers: self.offers@,
            tokens: self.token_accounts@,
            mints: self.mints@,
        }
    }
}

impl LedgerView {
    /// The balance of the token account at `a`, zero where there is none.
    pub open spec fn balance(self, a: Seq<u8>) -> int {
        if self.tokens.contains_key(a) {
            self.tokens[a].amount as int
        } else {
            0
        }
    }

    /// The native (lamport) balance of the wallet at `a`, zero where it has none.
    pub open spec fn lamports_of(self, a: Seq<u8>) -> int {
        if self.lamports.contains_key(a) {
            self.lamports[a] as int
        } else {
            0
        }
    }

    pub open spec fn with_lamports(self, a: Seq<u8>, amount: u64) -> LedgerView {
        LedgerView { lamports: self.lamports.insert(a, amount), ..self }
    }

    pub open spec fn with_tokens(self, tokens: Map<Seq<u8>, TokenAccount>) -> LedgerView {
        LedgerView { tokens, ..self }
    }

    pub open spec fn with_offers(self, offers: Map<Seq<u8>, EscrowOffer>) -> LedgerView {
        LedgerView { offers, ..self }
    }

    pub open spec fn set_amount(self, a: Seq<u8>, amount: u64) -> LedgerView {
        self.with_tokens(self.tokens.insert(a, TokenAccount { amount, ..self.tokens[a] }))
    }
}

/// A checked transfer of `amount` of `mint` from `from` to `to`, signed by
/// `authority`, with the asset's `decimals` restated.
pub open spec fn transfer_spec(
    v: LedgerView,
    from: Seq<u8>,
    to: Seq<u8>,
    authority: Seq<u8>,
    mint: Seq<u8>,
    amount: u64,
    decimals: u8,
) -> Result<LedgerView, EscrowFault> {
    if !v.tokens.contains_key(from) || !v.tokens.contains_key(to) || !v.mints.contains_key(mint) {
        Err(EscrowFault::AccountNotInitialized)
    } else if v.tokens[from].mint@ != mint || v.tokens[to].mint@ != mint {
        Err(EscrowFault::ConstraintTokenMint)
    } else if v.tokens[from].owner@ != authority {
        Err(EscrowFault::ConstraintTokenOwner)
    } else if v.mints[mint].decimals != decimals {
        Err(EscrowFault::MintDecimalsMismatch)
    } else if v.tokens[from].amount < amount {
        Err(EscrowFault::InsufficientFunds)
    } else if from == to {
        Ok(v)
    } else if v.tokens[to].amount + amount > u64::MAX {
        Err(EscrowFault::Overflow)
    } else {
        let w = v.set_amount(from, (v.tokens[from].amount - amount) as u64);
        Ok(w.set_amount(to, (v.tokens[to].amount + amount) as u64))
    }
}

/// Adding `amount` lamports to the wallet at `a`.
pub open spec fn credit_spec(v: LedgerView, a: Seq<u8>, amount: u64) -> Result<LedgerView, EscrowFault> {
    if v.lamports_of(a) + amount > u64::MAX {
        Err(EscrowFault::Overflow)
    } else {
        Ok(v.with_lamports(a, (v.lamports_of(a) + amount) as u64))
    }
}

/// Taking `amount` lamports from the wallet at `a`, as paying for a new account does.
pub open spec fn debit_spec(v: LedgerView, a: Seq<u8>, amount: u64) -> Result<LedgerView, EscrowFault> {
    if v.lamports_of(a) < amount {
        Err(EscrowFault::InsufficientLamports)
    } else {
        Ok(v.with_lamports(a, (v.lamports_of(a) - amount) as u64))
    }
}

/// Closing the empty token account at `a`, signed by its owner `authority`;
/// its rent goes to the wallet `destination`.
pub open spec fn close_spec(v: LedgerView, a: Seq<u8>, authority: Seq<u8>, destination: Seq<u8>) -> Result<LedgerView, EscrowFault> {
    if !v.tokens.contains_key(a) {
        Err(EscrowFault::AccountNotInitialized)
    } else if v.tokens[a].owner@ != authority {
        Err(EscrowFault::ConstraintTokenOwner)
    } else if v.tokens[a].amount != 0 {
        Err(EscrowFault::NonZeroBalance)
    } else {
        credit_spec(v.with_tokens(v.tokens.remove(a)), destination, v.token_rent)
    }
}

/// Closing the offer record at `a`; its rent goes to the wallet `destination`.
pub open spec fn close_record_spec(v: LedgerView, a: Seq<u8>, destination: Seq<u8>) -> Result<LedgerView, EscrowFault> {
    if !v.offers.contains_key(a) {
        Err(EscrowFault::AccountNotInitialized)
    } else {
        credit_spec(v.with_offers(v.offers.remove(a)), destination, v.record_rent)
    }
}

/// Opening an empty token account of `mint` for `owner` at `a`, its rent paid
/// by the wallet `payer`; with `if_needed` an existing one of that mint and
/// owner is kept.
pub open spec fn open_spec(
    v: LedgerView,
    a: Seq<u8>,
    mint: Address,
    owner: Address,
    if_needed: bool,
    payer: Seq<u8>,
) -> Result<LedgerView, EscrowFault> {
    if v.tokens.contains_key(a) {
        if !if_needed {
            Err(EscrowFault::AccountAlreadyInUse)
        } else if v.tokens[a].mint@ != mint@ {
            Err(EscrowFault::ConstraintTokenMint)
        } else if v.tokens[a].owner@ != owner@ {
            Err(EscrowFault::ConstraintTokenOwner)
        } else {
            Ok(v)
        }
    } else {
        match debit_spec(v, payer, v.token_rent) {
            Err(e) => Err(e),
            Ok(w) => Ok(w.with_tokens(w.tokens.insert(a, TokenAccount { mint, owner, amount: 0 }))),
        }
    }
}

/// How a step of an operation left the ledger: as `spec` says on success, and
/// untouched on failure.
pub open spec fn stepped(pre: LedgerView, post: LedgerView, r: Result<(), EscrowFault>, spec: Result<LedgerView, EscrowFault>) -> bool {
    match r {
        Ok(()) => spec == Ok::<LedgerView, EscrowFault>(post),
        Err(e) => spec == Err::<LedgerView, EscrowFault>(e) && post == pre,
    }
}

impl Ledger {
    pub open spec fn wf(&self) -> bool {
        self.native.wf() && self.offers.wf() && self.token_accounts.wf() && self.mints.wf()
    }

    /// An empty ledger under the given program ids.
    pub fn new(
        program_id: Address,
        token_program: Address,
        associated_token_program: Address,
        system_program: Address,
        record_rent: u64,
        token_rent: u64,
    ) -> (r: Ledger)
        ensures
            r.wf(),
            r@.program_id == program_id,
            r@.token_program == token_program,
            r@.associated_token_program == associated_token_program,
            r@.system_program == system_program,
            r@.record_rent == record_rent,
            r@.token_rent == token_rent,
            r@.lamports == Map::<Seq<u8>, u64>::empty(),
            r@.offers == Map::<Seq<u8>, EscrowOffer>::empty(),
            r@.tokens == Map::<Seq<u8>, TokenAccount>::empty(),
            r@.mints == Map::<Seq<u8>, Mint>::empty(),
    {
        Ledger {
            program_id,
            token_program,
            associated_token_program,
            system_program,
            record_rent,
            token_rent,
            native: Registry::new(),
            offers: Registry::new(),
            token_accounts: Registry::new(),
            mints: Registry::new(),
        }
    }

    /// An exact copy, from which a failed operation is rolled back.
    pub fn snapshot(&self) -> (r: Ledger)
        requires
            self.wf(),
        ensures
            r.wf(),
            r@ == self@,
    {
        Ledger {
            program_id: self.program_id,
            token_program: self.token_program,
            associated_token_program: self.associated_token_program,
            system_program: self.system_program,
            record_rent: self.record_rent,
            token_rent: self.token_rent,
            native: self.native.snapshot(),
            offers: self.offers.snapshot(),
            token_accounts: self.token_accounts.snapshot(),
            mints: self.mints.snapshot(),
        }
    }

    /// Registers an asset type at `address`.
    pub fn add_mint(&mut self, address: Address, decimals: u8) -> (r: Result<(), EscrowFault>)
        requires
            old(self).wf(),
        ensures
            final(self).wf(),
            stepped(old(self)@, final(self)@, r, if old(self)@.mints.contains_key(address@) {
                Err(EscrowFault::AccountAlreadyInUse)
            } else {
                Ok(LedgerView { mints: old(self)@.mints.insert(address@, Mint { decimals }), ..old(self)@ })
            }),
    {
        if self.mints.find(&address).is_some() {
            return Err(EscrowFault::AccountAlreadyInUse);
        }
        self.mints.insert(address, Mint { decimals });
        Ok(())
    }

    /// The lamports held by the wallet at `a`, zero where it holds none.
    pub fn lamports(&self, a: &Address) -> (r: u64)
        requires
            self.wf(),
        ensures
            r == self@.lamports_of(a@),
    {
        match self.native.get(a) {
            Some(n) => n,
            None => 0,
        }
    }

    /// Adds `amount` lamports to the wallet at `a`.
    pub fn credit_lamports(&mut self, a: &Address, amount: u64) -> (r: Result<(), EscrowFault>)
        requires
            old(self).wf(),
        ensures
            final(self).wf(),
            stepped(old(self)@, final(self)@, r, credit_spec(old(self)@, a@, amount)),
    {
        let n = self.lamports(a);
        if n > u64::MAX - amount {
            return Err(EscrowFault::Overflow);
        }
        if self.native.find(a).is_some() {
            self.native.set(*a, n + amount);
        } else {
            self.native.insert(*a, n + amount);
        }
        Ok(())
    }

    /// Takes `amount` lamports from the wallet at `a`.
    pub(crate) fn debit_lamports(&mut self, a: &Address, amount: u64) -> (r: Result<(), EscrowFault>)
        requires
            old(self).wf(),
        ensures
            final(self).wf(),
            stepped(old(self)@, final(self)@, r, debit_spec(old(self)@, a@, amount)),
    {
        let n = self.lamports(a);
        if n < amount {
            return Err(EscrowFault::InsufficientLamports);
        }
        if self.native.find(a).is_some() {
            self.native.set(*a, n - amount);
        } else {
            self.native.insert(*a, n - amount);
        }
        Ok(())
    }

    /// Closes the offer record at `a`, its rent going to the wallet `destination`.
    pub(crate) fn close_record(&mut self, a: &Address, destination: &Address) -> (r: Result<(), EscrowFault>)
        requires
            old(self).wf(),
        ensures
            final(self).wf(),
            stepped(old(self)@, final(self)@, r, close_record_spec(old(self)@, a@, destination@)),
    {
        if self.offers.find(a).is_none() {
            return Err(EscrowFault::AccountNotInitialized);
        }
        if self.lamports(destination) > u64::MAX - self.record_rent {
            return Err(EscrowFault::Overflow);
        }
        self.offers.remove(a);
        self.credit_lamports(destination, self.record_rent)
    }

    /// The balance held at `a`, zero where there is no token account.
    pub fn balance(&self, a: &Address) -> (r: u64)
        requires
            self.wf(),
        ensures
            r == self@.balance(a@),
    {
        match self.token_accounts.get(a) {
            Some(t) => t.amount,
            None => 0,
        }
    }

    /// Opens a token account at `a`, or with `if_needed` keeps a matching one.
    pub fn open_token_account(&mut self, a: Address, mint: Address, owner: Address, if_needed: bool, payer: &Address) -> (r: Result<(), EscrowFault>)
        requires
            old(self).wf(),
        ensures
            final(self).wf(),
            stepped(old(self)@, final(self)@, r, open_spec(old(self)@, a@, mint, owner, if_needed, payer@)),
    {
        match self.token_accounts.get(&a) {
            Some(t) => {
                if !if_needed {
                    Err(EscrowFault::AccountAlreadyInUse)
                } else if !same_address(&t.mint, &mint) {
                    Err(EscrowFault::ConstraintTokenMint)
                } else if !same_address(&t.owner, &owner) {
                    Err(EscrowFault::ConstraintTokenOwner)
                } else {
                    Ok(())
                }
            },
            None => {
                match self.debit_lamports(payer, self.token_rent) {
                    Err(e) => Err(e),
                    Ok(()) => {
                        self.token_accounts.insert(a, TokenAccount { mint, owner, amount: 0 });
                        Ok(())
                    },
                }
            },
        }
    }

    /// Credits `amount` to the token account at `a`, as the asset's issuer does.
    pub fn mint_to(&mut self, a: &Address, amount: u64) -> (r: Result<(), EscrowFault>)
        requires
            old(self).wf(),
        ensures
            final(self).wf(),
            stepped(old(self)@, final(self)@, r, if !old(self)@.tokens.contains_key(a@) {
                Err(EscrowFault::AccountNotInitialized)
            } else if old(self)@.tokens[a@].amount + amount > u64::MAX {
                Err(EscrowFault::Overflow)
            } else {
                Ok(old(self)@.set_amount(a@, (old(self)@.tokens[a@].amount + amount) as u64))
            }),
    {
        match self.token_accounts.get(a) {
            None => Err(EscrowFault::AccountNotInitialized),
            Some(t) => {
                if t.amount > u64::MAX - amount {
                    Err(EscrowFault::Overflow)
                } else {
                    self.token_accounts.set(*a, TokenAccount { amount: t.amount + amount, ..t });
                    Ok(())
                }
            },
        }
    }

    /// Moves `amount` of `mint` from `from` to `to` on `authority`'s signature.
    pub(crate) fn transfer_checked(
        &mut self,
        from: &Address,
        to: &Address,
        authority: &Address,
        mint: &Address,
        amount: u64,
        decimals: u8,
    ) -> (r: Result<(), EscrowFault>)
        requires
            old(self).wf(),
        ensures
            final(self).wf(),
            stepped(old(self)@, final(self)@, r, transfer_spec(old(self)@, from@, to@, authority@, mint@, amount, decimals)),
    {
        let src = self.token_accounts.get(from);
        let dst = self.token_accounts.get(to);
        let m = self.mints.get(mint);
        if src.is_none() || dst.is_none() || m.is_none() {
            return Err(EscrowFault::AccountNotInitialized);
        }
        let src = src.unwrap();
        let dst = dst.unwrap();
        let m = m.unwrap();
        if !same_address(&src.mint, mint) || !same_address(&dst.mint, mint) {
            return Err(EscrowFault::ConstraintTokenMint);
        }
        if !same_address(&src.owner, authority) {
            return Err(EscrowFault::ConstraintTokenOwner);
        }
        if m.decimals != decimals {
            return Err(EscrowFault::MintDecimalsMismatch);
        }
        if src.amount < amount {
            return Err(EscrowFault::InsufficientFunds);
        }
        if same_address(from, to) {
            return Ok(());
        }
        if dst.amount > u64::MAX - amount {
            return Err(EscrowFault::Overflow);
        }
        self.token_accounts.set(*from, TokenAccount { amount: src.amount - amount, ..src });
        self.token_accounts.set(*to, TokenAccount { amount: dst.amount + amount, ..dst });
        Ok(())
    }

    /// Closes the empty token account at `a` on its owner's signature, its rent
    /// going to the wallet `destination`.
    pub(crate) fn close_account(&mut self, a: &Address, authority: &Address, destination: &Address) -> (r: Result<(), EscrowFault>)
        requires
            old(self).wf(),
        ensures
            final(self).wf(),
            stepped(old(self)@, final(self)@, r, close_spec(old(self)@, a@, authority@, destination@)),
    {
        match self.token_accounts.get(a) {
            None => Err(EscrowFault::AccountNotInitialized),
            Some(t) => {
                if !same_address(&t.owner, authority) {
                    Err(EscrowFault::ConstraintTokenOwner)
                } else if t.amount != 0 {
                    Err(EscrowFault::NonZeroBalance)
                } else if self.lamports(destination) > u64::MAX - self.token_rent {
                    Err(EscrowFault::Overflow)
                } else {
                    self.token_accounts.remove(a);
                    self.credit_lamports(destination, self.token_rent)
                }
            },
        }
    }
}

} // verus!
