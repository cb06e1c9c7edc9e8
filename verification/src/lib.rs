//! Reliable-transport send pipeline for a user-space RDMA driver.
//!
//! The crate covers the logic that validates a work request, fragments it
//! into wire-sized chunks tagged with wrapping packet sequence numbers, and
//! tracks per-connection acknowledgment timeouts to drive retransmission.

pub mod chunk;
pub mod constants;
pub mod device;
pub mod mem;
pub mod mtt;
pub mod psn;
pub mod send;
pub mod timeout_retransmit;
pub mod timer;
pub mod virt_to_phy;
