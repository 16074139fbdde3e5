pub mod address;
pub mod faults;
pub mod flows;
pub mod laws;
pub mod ledger;
pub mod models;
pub mod registry;

pub use faults::EscrowFault;
pub use flows::crank_cancel::{auto_refund, auto_refund_checked, refund, CrankCancelEscrowFlow};
pub use flows::create::{make, CreateEscrowFlow};
pub use flows::queue_cancel::{schedule, QueueCancelEscrowFlow, TaskRequest, TaskTrigger};
pub use flows::settle::{take, SettleEscrowFlow};
pub use ledger::Ledger;
pub use models::{EscrowOffer, OFFER_LOCK_WINDOW};
