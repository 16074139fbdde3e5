pub mod create;
pub mod settle;
pub mod crank_cancel;
pub mod queue_cancel;
