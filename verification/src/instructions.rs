//! The operations of the engine, each on the records it reads and writes.
pub mod accept_manager;
pub mod add_epoch;
pub mod approve_epoch;
pub mod change_agent;
pub mod claim;
pub mod correct_epoch;
pub mod initialize;
pub mod pause;
pub mod propose_manager;
pub mod set_merkle_distributor;
pub mod unpause;
pub mod update_admin;

pub use accept_manager::{accept_manager_handler, AcceptManager};
pub use add_epoch::{add_epoch_handler, AddEpoch};
pub use approve_epoch::{approve_epoch_handler, ApproveEpoch};
pub use change_agent::{change_agent_handler, ChangeAgent};
pub use claim::{claim_handler, process_claim, Claim};
pub use correct_epoch::{correct_epoch_handler, CorrectEpoch};
pub use initialize::{initialize_handler, Initialize};
pub use pause::{pause_handler, Pause};
pub use propose_manager::{propose_manager_handler, ProposeManager};
pub use set_merkle_distributor::{set_merkle_distributor_handler, NewDistributor};
pub use unpause::{unpause_handler, UnPause};
pub use update_admin::{update_admin_handler, UpdateAdmin};
