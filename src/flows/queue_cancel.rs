use crate::address::{queue_authority, queue_authority_spec, selector, selector_of, Address};
use crate::faults::EscrowFault;
use crate::flows::crank_cancel::{cancel_accounts_spec, CrankCancelEscrowFlow};
use crate::ledger::{Ledger, LedgerView};
use anchor_lang::solana_program::instruction::{AccountMeta, Instruction};
use tuktuk_program::compile_transaction;
use vstd::prelude::*;

verus! {

/// The reward, in lamports, paid to whoever runs a scheduled refund.
pub const CRANK_REWARD: u64 = 1000001;

/// An account that a call passes, and how the call may use it.
#[derive(Debug, Clone, Copy)]
pub struct AccountRef {
    pub address: Address,
    pub writable: bool,
    pub signer: bool,
}

/// A call of a program: which program, the accounts it passes, and its data.
#[derive(Debug, Clone)]
pub struct CallPayload {
    pub program_id: Address,
    pub accounts: Vec<AccountRef>,
    pub data: Vec<u8>,
}

/// One call of a compiled transaction, with accounts given by position.
#[derive(Debug, Clone)]
pub struct CompiledInstruction {
    pub program_id_index: u8,
    pub accounts: Vec<u8>,
    pub data: Vec<u8>,
}

/// A transaction compiled for the task executor: each account listed once.
#[derive(Debug, Clone)]
pub struct CompiledCall {
    pub num_rw_signers: u8,
    pub num_ro_signers: u8,
    pub num_rw: u8,
    pub accounts: Vec<Address>,
    pub instructions: Vec<CompiledInstruction>,
}

/// When the executor may run a task.
#[derive(Debug, Clone, Copy, PartialEq, Eq, Structural)]
pub enum TaskTrigger {
    Now,
    Timestamp(i64),
}

/// A task handed to the executor, to be submitted under the queue authority.
#[derive(Debug, Clone)]
pub struct TaskRequest {
    pub id: u16,
    pub trigger: TaskTrigger,
    pub call: CallPayload,
    pub compiled: CompiledCall,
    pub crank_reward: Option<u64>,
    pub free_tasks: u8,
    pub description: Vec<u8>,
    pub queue_authority: Address,
    pub queue_authority_bump: u8,
}

/// What holds of a compilation of the single call `call`, whatever order the
/// accounts come in: each account is listed once, every listed account is the
/// program or one the call passes, and the positions lead back to the call's
/// program and accounts, with its data unchanged. Without signers, the first
/// `num_rw` accounts are exactly those that the call passes as writable.
pub open spec fn compiled_matches(c: CompiledCall, call: CallPayload) -> bool {
    let ix = c.instructions@[0];
    &&& c.instructions@.len() == 1
    &&& forall|i: int, j: int| 0 <= i < c.accounts@.len() && 0 <= j < c.accounts@.len() && i != j ==> c.accounts@[i] != c.accounts@[j]
    &&& forall|k: int| 0 <= k < c.accounts@.len() ==> (c.accounts@[k] == call.program_id || exists|j: int|
        0 <= j < call.accounts@.len() && call.accounts@[j].address == c.accounts@[k])
    &&& ix.program_id_index < c.accounts@.len()
    &&& c.accounts@[ix.program_id_index as int] == call.program_id
    &&& ix.accounts@.len() == call.accounts@.len()
    &&& forall|j: int| 0 <= j < ix.accounts@.len() ==> ix.accounts@[j] < c.accounts@.len() && c.accounts@[ix.accounts@[j] as int] == call.accounts@[j].address
    &&& ix.data@ == call.data@
    &&& (forall|j: int| 0 <= j < call.accounts@.len() ==> !call.accounts@[j].signer) ==> {
        &&& c.num_rw_signers == 0
        &&& c.num_ro_signers == 0
        &&& c.num_rw <= c.accounts@.len()
        &&& forall|k: int| #![trigger c.accounts@[k]] 0 <= k < c.accounts@.len() ==> (k < c.num_rw <==> exists|j: int|
            0 <= j < call.accounts@.len() && call.accounts@[j].address == c.accounts@[k] && call.accounts@[j].writable)
    }
}

/// Relies on tuktuk's `compile_transaction`: lists each account of the call
/// once, program included, writable where any use of it is, sorted by class
/// (writable signers, read-only signers, writable, read-only) with each class
/// counted, and rewrites the call with positions into that list; it always
/// succeeds.
#[verifier::external_body]
fn compile_call(call: &CallPayload) -> (r: CompiledCall)
    requires
        call.accounts@.len() < 200,
    ensures
        compiled_matches(r, *call),
{
    let ix = Instruction {
        program_id: call.program_id.into(),
        accounts: call.accounts.iter().map(|a| AccountMeta { pubkey: a.address.into(), is_signer: a.signer, is_writable: a.writable }).collect(),
        data: call.data.clone(),
    };
    let (c, _) = compile_transaction(vec![ix], vec![]).unwrap();
    let accounts = c.accounts.iter().map(|k| k.to_bytes()).collect();
    let instructions = c.instructions.into_iter().map(|i| CompiledInstruction { program_id_index: i.program_id_index, accounts: i.accounts, data: i.data }).collect();
    CompiledCall { num_rw_signers: c.num_rw_signers, num_ro_signers: c.num_ro_signers, num_rw: c.num_rw, accounts, instructions }
}

/// The name whose digest selects the permissionless refund.
pub open spec fn auto_refund_name() -> Seq<u8> {
    seq![103u8, 108u8, 111u8, 98u8, 97u8, 108u8, 58u8, 97u8, 117u8, 116u8, 111u8, 95u8, 114u8, 101u8, 102u8, 117u8, 110u8, 100u8]
}

/// The description that scheduled refunds carry.
pub open spec fn refund_description() -> Seq<u8> {
    seq![114u8, 101u8, 102u8, 117u8, 110u8, 100u8, 95u8, 101u8, 115u8, 99u8, 114u8, 111u8, 119u8]
}

/// The accounts that the permissionless refund of offer `f` is called with.
pub open spec fn refund_accounts(v: LedgerView, f: CrankCancelEscrowFlow) -> Seq<AccountRef> {
    seq![
        AccountRef { address: f.maker, writable: true, signer: false },
        AccountRef { address: f.mint_a, writable: false, signer: false },
        AccountRef { address: f.maker_ata_a, writable: true, signer: false },
        AccountRef { address: f.escrow, writable: true, signer: false },
        AccountRef { address: f.vault, writable: true, signer: false },
        AccountRef { address: v.token_program, writable: false, signer: false },
        AccountRef { address: v.system_program, writable: false, signer: false },
    ]
}

/// The call of the permissionless refund of offer `f`.
pub open spec fn is_refund_call(call: CallPayload, v: LedgerView, f: CrankCancelEscrowFlow) -> bool {
    &&& call.program_id == v.program_id
    &&& call.accounts@ == refund_accounts(v, f)
    &&& call.data@ == selector_of(auto_refund_name())
}

/// `req` schedules the permissionless refund of offer `f` as task `task_id`.
pub open spec fn is_refund_task(req: TaskRequest, v: LedgerView, f: CrankCancelEscrowFlow, task_id: u16) -> bool {
    &&& req.id == task_id
    &&& req.trigger == TaskTrigger::Now
    &&& is_refund_call(req.call, v, f)
    &&& compiled_matches(req.compiled, req.call)
    &&& req.crank_reward == Some(CRANK_REWARD)
    &&& req.free_tasks == 0
    &&& req.description@ == refund_description()
    &&& queue_authority_spec(v.program_id@) == Some((req.queue_authority, req.queue_authority_bump))
}

/// Scheduling the refund of offer `seed` of `maker`: refused as `cancel_accounts_spec`
/// refuses the accounts, or where no queue authority can be derived.
pub open spec fn schedule_refused(v: LedgerView, maker: Address, mint_a: Address, seed: u64) -> Option<EscrowFault> {
    match cancel_accounts_spec(v, maker, mint_a, seed) {
        Err(e) => Some(e),
        Ok(_) => if queue_authority_spec(v.program_id@) is None {
            Some(EscrowFault::ConstraintSeeds)
        } else {
            None
        },
    }
}

/// The accounts that scheduling a refund works on, once checked.
#[derive(Debug, Clone, Copy)]
pub struct QueueCancelEscrowFlow {
    pub offer: CrankCancelEscrowFlow,
    pub queue_authority: Address,
    pub queue_authority_bump: u8,
}

impl QueueCancelEscrowFlow {
    /// Derives and checks the accounts of scheduling the refund of offer `seed` of `maker`.
    pub fn load(ledger: &Ledger, maker: Address, mint_a: Address, seed: u64) -> (r: Result<QueueCancelEscrowFlow, EscrowFault>)
        requires
            ledger.wf(),
        ensures
            match r {
                Ok(q) => schedule_refused(ledger@, maker, mint_a, seed) is None
                    && cancel_accounts_spec(ledger@, maker, mint_a, seed) == Ok::<CrankCancelEscrowFlow, EscrowFault>(q.offer)
                    && queue_authority_spec(ledger@.program_id@) == Some((q.queue_authority, q.queue_authority_bump)),
                Err(e) => schedule_refused(ledger@, maker, mint_a, seed) == Some(e),
            },
    {
        let offer = match CrankCancelEscrowFlow::load(ledger, maker, mint_a, seed) {
            Ok(f) => f,
            Err(e) => return Err(e),
        };
        match queue_authority(&ledger.program_id) {
            None => Err(EscrowFault::ConstraintSeeds),
            Some((a, b)) => Ok(QueueCancelEscrowFlow { offer, queue_authority: a, queue_authority_bump: b }),
        }
    }

    /// Builds the task that calls the permissionless refund of this offer.
    pub fn enqueue_cancel_task(&self, ledger: &Ledger, task_id: u16) -> (r: TaskRequest)
        requires
            queue_authority_spec(ledger@.program_id@) == Some((self.queue_authority, self.queue_authority_bump)),
        ensures
            is_refund_task(r, ledger@, self.offer, task_id),
    {
        let f = &self.offer;
        let accounts: Vec<AccountRef> = vec![
            AccountRef { address: f.maker, writable: true, signer: false },
            AccountRef { address: f.mint_a, writable: false, signer: false },
            AccountRef { address: f.maker_ata_a, writable: true, signer: false },
            AccountRef { address: f.escrow, writable: true, signer: false },
            AccountRef { address: f.vault, writable: true, signer: false },
            AccountRef { address: ledger.token_program, writable: false, signer: false },
            AccountRef { address: ledger.system_program, writable: false, signer: false },
        ];
        let name: Vec<u8> = vec![103u8, 108u8, 111u8, 98u8, 97u8, 108u8, 58u8, 97u8, 117u8, 116u8, 111u8, 95u8, 114u8, 101u8, 102u8, 117u8, 110u8, 100u8];
        assert(name@ =~= auto_refund_name());
        let data = selector(&name);
        let call = CallPayload { program_id: ledger.program_id, accounts, data };
        assert(call.accounts@ =~= refund_accounts(ledger@, *f));
        let compiled = compile_call(&call);
        let description: Vec<u8> = vec![114u8, 101u8, 102u8, 117u8, 110u8, 100u8, 95u8, 101u8, 115u8, 99u8, 114u8, 111u8, 119u8];
        assert(description@ =~= refund_description());
        TaskRequest {
            id: task_id,
            trigger: TaskTrigger::Now,
            call,
            compiled,
            crank_reward: Some(CRANK_REWARD),
            free_tasks: 0,
            description,
            queue_authority: self.queue_authority,
            queue_authority_bump: self.queue_authority_bump,
        }
    }
}

/// Builds the task that lets the executor run the permissionless refund of
/// offer `seed` of `maker` later, signed by the queue authority. The ledger is
/// only read: no tokens move and no record changes.
pub fn schedule(ledger: &Ledger, maker: Address, mint_a: Address, seed: u64, task_id: u16) -> (r: Result<TaskRequest, EscrowFault>)
    requires
        ledger.wf(),
    ensures
        match r {
            Ok(req) => schedule_refused(ledger@, maker, mint_a, seed) is None && is_refund_task(
                req,
                ledger@,
                cancel_accounts_spec(ledger@, maker, mint_a, seed)->Ok_0,
                task_id,
            ),
            Err(e) => schedule_refused(ledger@, maker, mint_a, seed) == Some(e),
        },
{
    let flow = match QueueCancelEscrowFlow::load(ledger, maker, mint_a, seed) {
        Ok(q) => q,
        Err(e) => return Err(e),
    };
    Ok(flow.enqueue_cancel_task(ledger, task_id))
}

} // verus!
